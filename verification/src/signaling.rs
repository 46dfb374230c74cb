//! The life of one signaling connection once it holds the streaming slot and
//! its peer connection exists: wait for the browser's offer, answer it, wait
//! for the peer to connect, stream, and ride out short disconnections. The
//! caller performs the I/O of each phase and hands back what happened.
use crate::server::{connection_wait_result, signaling_reaction, PeerState, SignalingReaction};
use vstd::prelude::*;

verus! {

/// Where a signaling connection stands.
#[derive(Clone, Copy, Debug, PartialEq, Eq, Structural)]
pub enum SignalingPhase {
    /// Reading the WebSocket until the browser's offer arrives (bounded in time).
    AwaitingOffer,
    /// Applying the offer, gathering candidates and sending the answer.
    Negotiating,
    /// Waiting (bounded in time) for the peer connection to connect.
    Connecting,
    /// Audio flows; the WebSocket and the peer state are watched.
    Streaming,
    /// The peer reported a disconnection; waiting (bounded in time) for it to reconnect.
    Reconnecting,
    /// The connection is over.
    Ended,
}

/// What happened while a phase did its work.
pub enum SignalingEvent {
    /// An offer arrived.
    OfferReceived,
    /// Reading the offer failed, with this message.
    OfferFailed(String),
    /// The answer was sent.
    Negotiated,
    /// Answering failed, with this message.
    NegotiationFailed(String),
    /// The peer connection is (now) in this state.
    PeerChanged(PeerState),
    /// The peer's state can no longer be observed.
    StateChannelClosed,
    /// The phase's time ran out.
    TimedOut,
    /// A WebSocket message that needs no reaction.
    SocketMessage,
    /// The WebSocket closed, ended or failed.
    SocketClosed,
}

/// The content of a `SignalingEvent`, messages as character sequences.
pub enum EventView {
    OfferReceived,
    OfferFailed(Seq<char>),
    Negotiated,
    NegotiationFailed(Seq<char>),
    PeerChanged(PeerState),
    StateChannelClosed,
    TimedOut,
    SocketMessage,
    SocketClosed,
}

impl View for SignalingEvent {
    type V = EventView;

    open spec fn view(&self) -> EventView {
        match self {
            SignalingEvent::OfferReceived => EventView::OfferReceived,
            SignalingEvent::OfferFailed(m) => EventView::OfferFailed(m@),
            SignalingEvent::Negotiated => EventView::Negotiated,
            SignalingEvent::NegotiationFailed(m) => EventView::NegotiationFailed(m@),
            SignalingEvent::PeerChanged(s) => EventView::PeerChanged(*s),
            SignalingEvent::StateChannelClosed => EventView::StateChannelClosed,
            SignalingEvent::TimedOut => EventView::TimedOut,
            SignalingEvent::SocketMessage => EventView::SocketMessage,
            SignalingEvent::SocketClosed => EventView::SocketClosed,
        }
    }
}

/// What the caller does before going on with the next phase.
pub enum SignalingAction {
    /// Nothing.
    Wait,
    /// Close the peer connection, which frees the streaming slot.
    Close,
    /// Send the browser an error with this message, then close the peer connection.
    ReportAndClose(String),
}

/// The content of a `SignalingAction`, messages as character sequences.
pub enum ActionView {
    Wait,
    Close,
    ReportAndClose(Seq<char>),
}

impl View for SignalingAction {
    type V = ActionView;

    open spec fn view(&self) -> ActionView {
        match self {
            SignalingAction::Wait => ActionView::Wait,
            SignalingAction::Close => ActionView::Close,
            SignalingAction::ReportAndClose(m) => ActionView::ReportAndClose(m@),
        }
    }
}

/// While waiting for the peer to connect, its entering `state`: connected
/// starts (or resumes) streaming, failed or closed ends with a report, and any
/// other state keeps waiting.
pub open spec fn connect_wait(phase: SignalingPhase, state: PeerState) -> (SignalingPhase, ActionView) {
    match state {
        PeerState::Connected => (SignalingPhase::Streaming, ActionView::Wait),
        PeerState::Failed => (SignalingPhase::Ended, ActionView::ReportAndClose("WebRTC connection failed"@)),
        PeerState::Closed => (SignalingPhase::Ended, ActionView::ReportAndClose("WebRTC connection closed"@)),
        _ => (phase, ActionView::Wait),
    }
}

/// The next phase, and what to do, after `event` in `phase`. An event that
/// does not concern the phase changes nothing.
pub open spec fn signaling_transition(phase: SignalingPhase, event: EventView) -> (SignalingPhase, ActionView) {
    match phase {
        SignalingPhase::AwaitingOffer => match event {
            EventView::OfferReceived => (SignalingPhase::Negotiating, ActionView::Wait),
            EventView::OfferFailed(m) => (SignalingPhase::Ended, ActionView::ReportAndClose(m)),
            EventView::TimedOut => (
                SignalingPhase::Ended,
                ActionView::ReportAndClose("timed out waiting for WebRTC offer"@),
            ),
            _ => (phase, ActionView::Wait),
        },
        SignalingPhase::Negotiating => match event {
            EventView::Negotiated => (SignalingPhase::Connecting, ActionView::Wait),
            EventView::NegotiationFailed(m) => (SignalingPhase::Ended, ActionView::ReportAndClose(m)),
            _ => (phase, ActionView::Wait),
        },
        SignalingPhase::Connecting => match event {
            EventView::PeerChanged(s) => connect_wait(phase, s),
            EventView::StateChannelClosed => (
                SignalingPhase::Ended,
                ActionView::ReportAndClose("WebRTC connection state channel closed"@),
            ),
            EventView::TimedOut => (
                SignalingPhase::Ended,
                ActionView::ReportAndClose("timed out establishing WebRTC connection"@),
            ),
            _ => (phase, ActionView::Wait),
        },
        SignalingPhase::Reconnecting => match event {
            EventView::PeerChanged(s) => connect_wait(phase, s),
            EventView::StateChannelClosed => (
                SignalingPhase::Ended,
                ActionView::ReportAndClose("WebRTC connection state channel closed"@),
            ),
            EventView::TimedOut => (
                SignalingPhase::Ended,
                ActionView::ReportAndClose("WebRTC connection remained disconnected"@),
            ),
            _ => (phase, ActionView::Wait),
        },
        SignalingPhase::Streaming => match event {
            EventView::SocketClosed => (SignalingPhase::Ended, ActionView::Close),
            EventView::StateChannelClosed => (SignalingPhase::Ended, ActionView::Close),
            EventView::PeerChanged(PeerState::Disconnected) => (SignalingPhase::Reconnecting, ActionView::Wait),
            EventView::PeerChanged(PeerState::Failed) => (SignalingPhase::Ended, ActionView::Close),
            EventView::PeerChanged(PeerState::Closed) => (SignalingPhase::Ended, ActionView::Close),
            _ => (phase, ActionView::Wait),
        },
        SignalingPhase::Ended => (phase, ActionView::Wait),
    }
}

fn report(message: &str) -> (a: SignalingAction)
    ensures
        a@ == ActionView::ReportAndClose(message@),
{
    SignalingAction::ReportAndClose(String::from_str(message))
}

fn connect_wait_step(phase: SignalingPhase, state: PeerState) -> (r: (SignalingPhase, SignalingAction))
    ensures
        (r.0, r.1@) == connect_wait(phase, state),
{
    match connection_wait_result(state) {
        Some(Ok(())) => (SignalingPhase::Streaming, SignalingAction::Wait),
        Some(Err(message)) => (SignalingPhase::Ended, report(message)),
        None => (phase, SignalingAction::Wait),
    }
}

/// Decides on `event` in `phase`: the next phase and the action to perform.
pub fn signaling_step(phase: SignalingPhase, event: SignalingEvent) -> (r: (SignalingPhase, SignalingAction))
    ensures
        (r.0, r.1@) == signaling_transition(phase, event@),
{
    match phase {
        SignalingPhase::AwaitingOffer => match event {
            SignalingEvent::OfferReceived => (SignalingPhase::Negotiating, SignalingAction::Wait),
            SignalingEvent::OfferFailed(m) => (SignalingPhase::Ended, SignalingAction::ReportAndClose(m)),
            SignalingEvent::TimedOut => (SignalingPhase::Ended, report("timed out waiting for WebRTC offer")),
            _ => (phase, SignalingAction::Wait),
        },
        SignalingPhase::Negotiating => match event {
            SignalingEvent::Negotiated => (SignalingPhase::Connecting, SignalingAction::Wait),
            SignalingEvent::NegotiationFailed(m) => (SignalingPhase::Ended, SignalingAction::ReportAndClose(m)),
            _ => (phase, SignalingAction::Wait),
        },
        SignalingPhase::Connecting | SignalingPhase::Reconnecting => match event {
            SignalingEvent::PeerChanged(s) => connect_wait_step(phase, s),
            SignalingEvent::StateChannelClosed => (
                SignalingPhase::Ended,
                report("WebRTC connection state channel closed"),
            ),
            SignalingEvent::TimedOut => {
                if phase == SignalingPhase::Connecting {
                    (SignalingPhase::Ended, report("timed out establishing WebRTC connection"))
                } else {
                    (SignalingPhase::Ended, report("WebRTC connection remained disconnected"))
                }
            },
            _ => (phase, SignalingAction::Wait),
        },
        SignalingPhase::Streaming => match event {
            SignalingEvent::SocketClosed | SignalingEvent::StateChannelClosed => (
                SignalingPhase::Ended,
                SignalingAction::Close,
            ),
            SignalingEvent::PeerChanged(s) => match signaling_reaction(s) {
                SignalingReaction::AwaitReconnect => (SignalingPhase::Reconnecting, SignalingAction::Wait),
                SignalingReaction::End => (SignalingPhase::Ended, SignalingAction::Close),
                SignalingReaction::Continue => (phase, SignalingAction::Wait),
            },
            _ => (phase, SignalingAction::Wait),
        },
        SignalingPhase::Ended => (phase, SignalingAction::Wait),
    }
}

/// How long a phase may wait for its event, in seconds: the offer 45, the
/// first connection 30, a reconnection 15. Negotiation bounds its own wait,
/// and streaming waits without a limit.
pub fn phase_time_limit_secs(phase: SignalingPhase) -> (s: Option<u64>)
    ensures
        s == match phase {
            SignalingPhase::AwaitingOffer => Some(45u64),
            SignalingPhase::Connecting => Some(30u64),
            SignalingPhase::Reconnecting => Some(15u64),
            _ => None::<u64>,
        },
{
    match phase {
        SignalingPhase::AwaitingOffer => Some(45),
        SignalingPhase::Connecting => Some(30),
        SignalingPhase::Reconnecting => Some(15),
        _ => None,
    }
}

/// The reply to a browser that connects while another one holds the streaming slot.
pub fn slot_taken_reply() -> (m: &'static str)
    ensures
        m@ == "{\"type\":\"error\",\"message\":\"another microphone is active\"}"@,
{
    "{\"type\":\"error\",\"message\":\"another microphone is active\"}"
}

/// Whether a signaling message whose `type` field is `message_type` (a
/// string, if present) is the browser's offer.
pub fn is_offer_message(message_type: Option<&str>) -> (b: bool)
    ensures
        b == (message_type matches Some(t) && t@ == "offer"@),
{
    match message_type {
        Some(t) => crate::text::chars_equal(&crate::text::chars_of(t), &crate::text::chars_of("offer")),
        None => false,
    }
}

/// Once over, a connection stays over and nothing more is done for it.
pub proof fn lemma_ended_is_final(event: EventView)
    ensures
        signaling_transition(SignalingPhase::Ended, event) == (SignalingPhase::Ended, ActionView::Wait),
{
}

/// A connection ends exactly when the step calls for closing the peer
/// connection (which frees the streaming slot); no other step does anything.
pub proof fn lemma_ending_closes(phase: SignalingPhase, event: EventView)
    requires
        phase != SignalingPhase::Ended,
    ensures
        (signaling_transition(phase, event).0 == SignalingPhase::Ended) <==> !(signaling_transition(
            phase,
            event,
        ).1 is Wait),
{
}

/// Before audio flows, every way a connection can end sends the browser an
/// error message; once it has streamed, it ends without one.
pub proof fn lemma_failures_before_streaming_are_reported(phase: SignalingPhase, event: EventView)
    requires
        phase != SignalingPhase::Ended,
        signaling_transition(phase, event).0 == SignalingPhase::Ended,
    ensures
        phase == SignalingPhase::Streaming <==> signaling_transition(phase, event).1 is Close,
        phase != SignalingPhase::Streaming ==> signaling_transition(phase, event).1 is ReportAndClose,
{
}

/// Audio starts (or resumes) to flow only when the peer reports that it is connected.
pub proof fn lemma_streaming_needs_connection(phase: SignalingPhase, event: EventView)
    requires
        phase != SignalingPhase::Streaming,
        signaling_transition(phase, event).0 == SignalingPhase::Streaming,
    ensures
        event == EventView::PeerChanged(PeerState::Connected),
        phase == SignalingPhase::Connecting || phase == SignalingPhase::Reconnecting,
{
}

/// Negotiation is entered only from waiting for the offer, when it arrived.
pub proof fn lemma_negotiation_follows_offer(phase: SignalingPhase, event: EventView)
    requires
        phase != SignalingPhase::Negotiating,
        signaling_transition(phase, event).0 == SignalingPhase::Negotiating,
    ensures
        phase == SignalingPhase::AwaitingOffer,
        event == EventView::OfferReceived,
{
}

/// The phases only move forward, but for a disconnection during streaming
/// and the recovery from it.
pub proof fn lemma_phases_move_forward(phase: SignalingPhase, event: EventView)
    ensures
        phase_rank(phase) <= phase_rank(signaling_transition(phase, event).0)
            || (phase == SignalingPhase::Reconnecting && signaling_transition(phase, event).0
            == SignalingPhase::Streaming),
{
}

/// The order of the phases, a disconnection counting as part of streaming's end.
pub open spec fn phase_rank(phase: SignalingPhase) -> int {
    match phase {
        SignalingPhase::AwaitingOffer => 0,
        SignalingPhase::Negotiating => 1,
        SignalingPhase::Connecting => 2,
        SignalingPhase::Streaming => 3,
        SignalingPhase::Reconnecting => 4,
        SignalingPhase::Ended => 5,
    }
}


/// While waiting for the peer to connect (first or again), only a connected,
/// failed or closed peer ends the wait; any other state it reports — new,
/// connecting, disconnected — keeps waiting, in the same phase, doing nothing.
pub proof fn lemma_waiting_survives_other_peer_states(phase: SignalingPhase, state: PeerState)
    requires
        phase == SignalingPhase::Connecting || phase == SignalingPhase::Reconnecting,
        state != PeerState::Connected,
        state != PeerState::Failed,
        state != PeerState::Closed,
    ensures
        signaling_transition(phase, EventView::PeerChanged(state)) == (phase, ActionView::Wait),
{
}

/// Each phase is left only on the events that concern it: the offer phase on
/// an offer, a failure to read one, or its time running out; negotiation on
/// its outcome; a wait for the peer on a connected, failed or closed peer, the
/// state channel closing, or its time running out; streaming on the socket or
/// the state channel closing, or the peer disconnecting, failing or closing.
pub proof fn lemma_phases_change_only_on_their_events(phase: SignalingPhase, event: EventView)
    requires
        signaling_transition(phase, event).0 != phase,
    ensures
        phase == SignalingPhase::AwaitingOffer ==> (event is OfferReceived || event is OfferFailed
            || event is TimedOut),
        phase == SignalingPhase::Negotiating ==> (event is Negotiated || event is NegotiationFailed),
        phase == SignalingPhase::Connecting || phase == SignalingPhase::Reconnecting ==> (event
            == EventView::PeerChanged(PeerState::Connected) || event == EventView::PeerChanged(
            PeerState::Failed,
        ) || event == EventView::PeerChanged(PeerState::Closed) || event is StateChannelClosed
            || event is TimedOut),
        phase == SignalingPhase::Streaming ==> (event is SocketClosed || event is StateChannelClosed
            || event == EventView::PeerChanged(PeerState::Disconnected) || event == EventView::PeerChanged(
            PeerState::Failed,
        ) || event == EventView::PeerChanged(PeerState::Closed)),
        phase != SignalingPhase::Ended,
{
}

} // verus!

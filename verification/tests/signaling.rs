use remotemic::server::PeerState;
use remotemic::signaling::{
    is_offer_message, phase_time_limit_secs, signaling_step, slot_taken_reply, SignalingAction,
    SignalingEvent, SignalingPhase,
};

fn report_text(action: &SignalingAction) -> Option<&str> {
    match action {
        SignalingAction::ReportAndClose(message) => Some(message.as_str()),
        _ => None,
    }
}

#[test]
fn signaling_walks_from_offer_to_streaming() {
    let (phase, action) = signaling_step(SignalingPhase::AwaitingOffer, SignalingEvent::OfferReceived);
    assert_eq!(phase, SignalingPhase::Negotiating);
    assert!(matches!(action, SignalingAction::Wait));

    let (phase, action) = signaling_step(phase, SignalingEvent::Negotiated);
    assert_eq!(phase, SignalingPhase::Connecting);
    assert!(matches!(action, SignalingAction::Wait));

    let (phase, action) = signaling_step(phase, SignalingEvent::PeerChanged(PeerState::Connecting));
    assert_eq!(phase, SignalingPhase::Connecting);
    assert!(matches!(action, SignalingAction::Wait));

    let (phase, action) = signaling_step(phase, SignalingEvent::PeerChanged(PeerState::Connected));
    assert_eq!(phase, SignalingPhase::Streaming);
    assert!(matches!(action, SignalingAction::Wait));

    let (phase, action) = signaling_step(phase, SignalingEvent::SocketMessage);
    assert_eq!(phase, SignalingPhase::Streaming);
    assert!(matches!(action, SignalingAction::Wait));

    let (phase, action) = signaling_step(phase, SignalingEvent::SocketClosed);
    assert_eq!(phase, SignalingPhase::Ended);
    assert!(matches!(action, SignalingAction::Close));
}

#[test]
fn signaling_reports_failures_before_streaming() {
    let (phase, action) = signaling_step(SignalingPhase::AwaitingOffer, SignalingEvent::TimedOut);
    assert_eq!(phase, SignalingPhase::Ended);
    assert_eq!(report_text(&action), Some("timed out waiting for WebRTC offer"));

    let (phase, action) = signaling_step(
        SignalingPhase::AwaitingOffer,
        SignalingEvent::OfferFailed("invalid signaling JSON".to_string()),
    );
    assert_eq!(phase, SignalingPhase::Ended);
    assert_eq!(report_text(&action), Some("invalid signaling JSON"));

    let (phase, action) = signaling_step(
        SignalingPhase::Negotiating,
        SignalingEvent::NegotiationFailed("ICE gathering timed out".to_string()),
    );
    assert_eq!(phase, SignalingPhase::Ended);
    assert_eq!(report_text(&action), Some("ICE gathering timed out"));

    let (phase, action) = signaling_step(SignalingPhase::Connecting, SignalingEvent::TimedOut);
    assert_eq!(phase, SignalingPhase::Ended);
    assert_eq!(report_text(&action), Some("timed out establishing WebRTC connection"));

    let (phase, action) = signaling_step(SignalingPhase::Connecting, SignalingEvent::PeerChanged(PeerState::Failed));
    assert_eq!(phase, SignalingPhase::Ended);
    assert_eq!(report_text(&action), Some("WebRTC connection failed"));

    let (phase, action) = signaling_step(SignalingPhase::Connecting, SignalingEvent::StateChannelClosed);
    assert_eq!(phase, SignalingPhase::Ended);
    assert_eq!(report_text(&action), Some("WebRTC connection state channel closed"));
}

#[test]
fn signaling_rides_out_a_short_disconnection() {
    let (phase, action) = signaling_step(SignalingPhase::Streaming, SignalingEvent::PeerChanged(PeerState::Disconnected));
    assert_eq!(phase, SignalingPhase::Reconnecting);
    assert!(matches!(action, SignalingAction::Wait));

    let (phase, action) = signaling_step(phase, SignalingEvent::PeerChanged(PeerState::Disconnected));
    assert_eq!(phase, SignalingPhase::Reconnecting);
    assert!(matches!(action, SignalingAction::Wait));

    let (phase, action) = signaling_step(phase, SignalingEvent::PeerChanged(PeerState::Connected));
    assert_eq!(phase, SignalingPhase::Streaming);
    assert!(matches!(action, SignalingAction::Wait));
}

#[test]
fn signaling_ends_after_a_long_disconnection() {
    let (phase, action) = signaling_step(SignalingPhase::Reconnecting, SignalingEvent::TimedOut);
    assert_eq!(phase, SignalingPhase::Ended);
    assert_eq!(report_text(&action), Some("WebRTC connection remained disconnected"));

    let (phase, action) = signaling_step(SignalingPhase::Reconnecting, SignalingEvent::PeerChanged(PeerState::Closed));
    assert_eq!(phase, SignalingPhase::Ended);
    assert_eq!(report_text(&action), Some("WebRTC connection closed"));
}

#[test]
fn signaling_streaming_ends_quietly_when_the_peer_fails() {
    let (phase, action) = signaling_step(SignalingPhase::Streaming, SignalingEvent::PeerChanged(PeerState::Failed));
    assert_eq!(phase, SignalingPhase::Ended);
    assert!(matches!(action, SignalingAction::Close));

    let (phase, action) = signaling_step(SignalingPhase::Streaming, SignalingEvent::StateChannelClosed);
    assert_eq!(phase, SignalingPhase::Ended);
    assert!(matches!(action, SignalingAction::Close));
}

#[test]
fn signaling_ended_connection_stays_ended() {
    let (phase, action) = signaling_step(SignalingPhase::Ended, SignalingEvent::PeerChanged(PeerState::Connected));
    assert_eq!(phase, SignalingPhase::Ended);
    assert!(matches!(action, SignalingAction::Wait));
}

#[test]
fn signaling_phases_have_their_time_limits() {
    assert_eq!(phase_time_limit_secs(SignalingPhase::AwaitingOffer), Some(45));
    assert_eq!(phase_time_limit_secs(SignalingPhase::Negotiating), None);
    assert_eq!(phase_time_limit_secs(SignalingPhase::Connecting), Some(30));
    assert_eq!(phase_time_limit_secs(SignalingPhase::Streaming), None);
    assert_eq!(phase_time_limit_secs(SignalingPhase::Reconnecting), Some(15));
}

#[test]
fn signaling_recognises_offers_and_a_taken_slot() {
    assert!(is_offer_message(Some("offer")));
    assert!(!is_offer_message(Some("answer")));
    assert!(!is_offer_message(None));
    assert_eq!(slot_taken_reply(), r#"{"type":"error","message":"another microphone is active"}"#);
}

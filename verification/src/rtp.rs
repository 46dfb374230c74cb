//! Decisions on the incoming RTP/Opus packet stream: ordering, loss, and
//! packet-loss concealment.
use vstd::prelude::*;

verus! {

/// At most this many lost packets are concealed after a gap.
pub const MAX_PLC_PACKETS: u16 = 3;

/// How often the negotiated codec of a new track is looked up before giving up.
pub const CODEC_LOOKUP_ATTEMPTS: usize = 25;

/// The forward distance from `previous` to `current`, modulo 2^16.
pub open spec fn sequence_distance(previous: u16, current: u16) -> u16 {
    current.wrapping_sub(previous)
}

/// The number of sequence steps from `previous` to `current` when `current`
/// lies ahead of it (within half the sequence space); `None` for a duplicate
/// or a packet from the past.
pub fn forward_sequence_delta(previous: u16, current: u16) -> (delta: Option<u16>)
    ensures
        delta == if 0 < sequence_distance(previous, current) <= 0x8000 {
            Some(sequence_distance(previous, current))
        } else {
            None
        },
{
    let delta = current.wrapping_sub(previous);
    if delta != 0 && delta <= 0x8000 {
        Some(delta)
    } else {
        None
    }
}

/// Whether an RTP payload carries anything for the Opus decoder.
pub fn has_opus_payload(payload: &[u8]) -> (b: bool)
    ensures
        b == (payload@.len() > 0),
{
    payload.len() != 0
}

/// The TOC byte of a one-frame (code 0) packet with the same configuration
/// and stereo bits as `toc`: the two low bits are cleared.
pub fn concealment_toc(toc: u8) -> (r: u8)
    ensures
        r == toc & 0xFC,
        r % 4 == 0,
        r / 4 == toc / 4,
{
    let r = toc & 0xFC;
    assert(r == toc & 0xFC && r % 4 == 0 && r / 4 == toc / 4) by (bit_vector)
        requires
            r == toc & 0xFC,
    ;
    r
}

/// Whether to wait before the next codec lookup after attempt `attempt`
/// (counting from 0) found no codec: not after the last attempt.
pub fn codec_lookup_should_wait(attempt: usize) -> (b: bool)
    ensures
        b == (attempt + 1 < CODEC_LOOKUP_ATTEMPTS),
{
    attempt < CODEC_LOOKUP_ATTEMPTS - 1
}

/// What to do with one incoming RTP packet.
#[derive(Clone, Copy, Debug, PartialEq, Eq, Structural)]
pub enum PacketVerdict {
    /// The session no longer holds the streaming slot: stop receiving.
    SessionEnded,
    /// A duplicate or a packet from the past: count it as reordered and drop it.
    Reordered,
    /// A packet ahead of the last one: `lost` packets are missing before it,
    /// and `conceal_count` concealment frames are decoded from a one-byte
    /// packet holding `conceal_toc` before it.
    Accepted { lost: u16, conceal_toc: u8, conceal_count: u16 },
}

/// What the receiver remembers between packets.
#[derive(Clone, Copy, Debug, PartialEq, Eq, Structural)]
pub struct ReceiveView {
    /// Sequence number of the last accepted packet.
    pub sequence: Option<u16>,
    /// TOC byte of the last successfully decoded payload.
    pub previous_toc: Option<u8>,
}

impl ReceiveView {
    /// Packets missing between the last accepted packet and one `ahead` steps after it.
    pub open spec fn missing(ahead: u16) -> u16 {
        (ahead - 1) as u16
    }

    /// The verdict on a packet numbered `sequence_number`, and the state after it.
    pub open spec fn step(self, sequence_number: u16) -> (PacketVerdict, ReceiveView) {
        match self.sequence {
            None => (
                PacketVerdict::Accepted { lost: 0, conceal_toc: 0, conceal_count: 0 },
                ReceiveView { sequence: Some(sequence_number), ..self },
            ),
            Some(previous) => {
                let d = sequence_distance(previous, sequence_number);
                if 0 < d <= 0x8000 {
                    let lost = ReceiveView::missing(d);
                    let verdict = match self.previous_toc {
                        Some(toc) => PacketVerdict::Accepted {
                            lost,
                            conceal_toc: toc & 0xFC,
                            conceal_count: if lost < MAX_PLC_PACKETS { lost } else { MAX_PLC_PACKETS },
                        },
                        None => PacketVerdict::Accepted { lost, conceal_toc: 0, conceal_count: 0 },
                    };
                    (verdict, ReceiveView { sequence: Some(sequence_number), ..self })
                } else {
                    (PacketVerdict::Reordered, self)
                }
            },
        }
    }
}

impl ReceiveView {
    /// The verdict on a packet numbered `sequence_number` that arrives while
    /// the session is (`session_active`) or is no longer active, and the state after it.
    pub open spec fn receive(self, session_active: bool, sequence_number: u16) -> (PacketVerdict, ReceiveView) {
        if session_active {
            self.step(sequence_number)
        } else {
            (PacketVerdict::SessionEnded, self)
        }
    }
}

/// The sequencing state of one received audio track.
pub struct RtpReceiveState {
    sequence: Option<u16>,
    previous_toc: Option<u8>,
}

impl View for RtpReceiveState {
    type V = ReceiveView;

    closed spec fn view(&self) -> ReceiveView {
        ReceiveView { sequence: self.sequence, previous_toc: self.previous_toc }
    }
}

impl RtpReceiveState {
    /// No packet seen yet.
    pub fn new() -> (s: Self)
        ensures
            s@ == (ReceiveView { sequence: None, previous_toc: None }),
    {
        RtpReceiveState { sequence: None, previous_toc: None }
    }

    /// Decides on a packet numbered `sequence_number` and remembers it when it is accepted.
    pub fn accept_packet(&mut self, sequence_number: u16) -> (verdict: PacketVerdict)
        ensures
            (verdict, final(self)@) == old(self)@.step(sequence_number),
    {
        match self.sequence {
            None => {
                self.sequence = Some(sequence_number);
                PacketVerdict::Accepted { lost: 0, conceal_toc: 0, conceal_count: 0 }
            },
            Some(previous) => match forward_sequence_delta(previous, sequence_number) {
                None => PacketVerdict::Reordered,
                Some(delta) => {
                    let lost = delta - 1;
                    let verdict = match self.previous_toc {
                        Some(toc) => PacketVerdict::Accepted {
                            lost,
                            conceal_toc: concealment_toc(toc),
                            conceal_count: if lost < MAX_PLC_PACKETS {
                                lost
                            } else {
                                MAX_PLC_PACKETS
                            },
                        },
                        None => PacketVerdict::Accepted { lost, conceal_toc: 0, conceal_count: 0 },
                    };
                    self.sequence = Some(sequence_number);
                    verdict
                },
            },
        }
    }

    /// Decides on a packet numbered `sequence_number`: once the session is no
    /// longer active the track is done; otherwise as `accept_packet`.
    pub fn on_packet(&mut self, session_active: bool, sequence_number: u16) -> (verdict: PacketVerdict)
        ensures
            (verdict, final(self)@) == old(self)@.receive(session_active, sequence_number),
    {
        if session_active {
            self.accept_packet(sequence_number)
        } else {
            PacketVerdict::SessionEnded
        }
    }

    /// Remembers the TOC byte (first byte) of a payload that decoded successfully.
    pub fn record_decoded(&mut self, payload: &[u8])
        ensures
            final(self)@ == (ReceiveView {
                previous_toc: if payload@.len() > 0 { Some(payload@[0]) } else { None },
                ..old(self)@
            }),
    {
        self.previous_toc = if payload.len() > 0 {
            Some(payload[0])
        } else {
            None
        };
    }
}

/// A duplicate or an older packet changes nothing and is only counted.
pub proof fn lemma_reordered_packet_changes_nothing(s: ReceiveView, sequence_number: u16)
    requires
        s.step(sequence_number).0 == PacketVerdict::Reordered,
    ensures
        s.step(sequence_number).1 == s,
{
}

/// Packets that arrive in order, one after the other, report no loss.
pub proof fn lemma_consecutive_packets_lose_nothing(s: ReceiveView, n: u16)
    requires
        s.sequence == Some(n),
    ensures
        s.step(n.wrapping_add(1)).0 matches PacketVerdict::Accepted { lost, conceal_count, .. }
            && lost == 0 && conceal_count == 0,
        s.step(n.wrapping_add(1)).1.sequence == Some(n.wrapping_add(1)),
{
}

/// Concealment never exceeds the loss it covers, nor `MAX_PLC_PACKETS`.
pub proof fn lemma_concealment_is_bounded(s: ReceiveView, sequence_number: u16)
    ensures
        s.step(sequence_number).0 matches PacketVerdict::Accepted { lost, conceal_count, .. }
            ==> conceal_count <= lost && conceal_count <= MAX_PLC_PACKETS,
{
}

} // verus!

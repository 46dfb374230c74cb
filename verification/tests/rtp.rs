use remotemic::rtp::{
    concealment_toc, forward_sequence_delta, has_opus_payload, PacketVerdict, RtpReceiveState,
};

#[test]
fn concealment_toc_forces_single_frame_code() {
    // Config/stereo bits are preserved while the packet code becomes 0.
    assert_eq!(concealment_toc(0b0000_0011), 0b0000_0000);
    assert_eq!(concealment_toc(0b1101_0111), 0b1101_0100);
}

#[test]
fn empty_rtp_payload_is_not_passed_to_opus_decoder() {
    assert!(!has_opus_payload(&[]));
    assert!(has_opus_payload(&[0xf8, 0xff, 0xfe]));
}

#[test]
fn reordered_and_duplicate_sequences_are_rejected() {
    assert_eq!(forward_sequence_delta(100, 100), None);
    assert_eq!(forward_sequence_delta(100, 99), None);
    assert_eq!(forward_sequence_delta(u16::MAX, 0), Some(1));
}

#[test]
fn forward_delta_accepts_half_the_sequence_space() {
    assert_eq!(forward_sequence_delta(0, 0x8000), Some(0x8000));
    assert_eq!(forward_sequence_delta(0, 0x8001), None);
}

#[test]
fn receiver_counts_gaps_and_conceals_at_most_three_packets() {
    let mut state = RtpReceiveState::new();
    assert_eq!(
        state.accept_packet(10),
        PacketVerdict::Accepted { lost: 0, conceal_toc: 0, conceal_count: 0 }
    );
    state.record_decoded(&[0b1111_1011, 1, 2]);
    assert_eq!(
        state.accept_packet(11),
        PacketVerdict::Accepted { lost: 0, conceal_toc: 0b1111_1000, conceal_count: 0 }
    );
    assert_eq!(
        state.accept_packet(17),
        PacketVerdict::Accepted { lost: 5, conceal_toc: 0b1111_1000, conceal_count: 3 }
    );
    assert_eq!(state.accept_packet(16), PacketVerdict::Reordered);
    assert_eq!(state.accept_packet(17), PacketVerdict::Reordered);
    assert_eq!(
        state.accept_packet(19),
        PacketVerdict::Accepted { lost: 1, conceal_toc: 0b1111_1000, conceal_count: 1 }
    );
}

#[test]
fn receiver_without_decoded_payload_does_not_conceal() {
    let mut state = RtpReceiveState::new();
    state.accept_packet(u16::MAX);
    assert_eq!(
        state.accept_packet(2),
        PacketVerdict::Accepted { lost: 2, conceal_toc: 0, conceal_count: 0 }
    );
}

#[test]
fn receiving_stops_once_the_session_ends() {
    let mut state = RtpReceiveState::new();
    assert_eq!(
        state.on_packet(true, 7),
        PacketVerdict::Accepted { lost: 0, conceal_toc: 0, conceal_count: 0 }
    );
    assert_eq!(state.on_packet(false, 8), PacketVerdict::SessionEnded);
    // The ended packet was not taken as the latest one.
    assert_eq!(
        state.on_packet(true, 8),
        PacketVerdict::Accepted { lost: 0, conceal_toc: 0, conceal_count: 0 }
    );
}

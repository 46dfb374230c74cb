use remotemic::ice::{ice_udp_addrs, IpAddress};
use remotemic::server::{
    connection_wait_result, is_authorized, new_session_token, query_token_of, releases_session,
    session_token_from, signaling_reaction, PeerState, SignalingReaction,
};

#[test]
fn ipv6_listener_enables_ipv4_and_ipv6_ice_sockets() {
    assert_eq!(ice_udp_addrs(IpAddress::V6([0; 8])), ["0.0.0.0:0", "[::]:0"]);
}

#[test]
fn ipv4_listener_uses_only_ipv4_ice_socket() {
    assert_eq!(ice_udp_addrs(IpAddress::V4([0, 0, 0, 0])), ["0.0.0.0:0"]);
}

#[test]
fn concrete_listener_limits_ice_to_the_same_interface() {
    assert_eq!(ice_udp_addrs(IpAddress::V4([127, 0, 0, 1])), ["127.0.0.1:0"]);
}

#[test]
fn concrete_ipv6_listener_limits_ice_to_the_same_interface() {
    assert_eq!(ice_udp_addrs(IpAddress::V6([0, 0, 0, 0, 0, 0, 0, 1])), ["[::1]:0"]);
}

#[test]
fn ipv6_text_shortens_the_leftmost_longest_zero_run() {
    assert_eq!(
        ice_udp_addrs(IpAddress::V6([0x2001, 0xdb8, 0, 0, 1, 0, 0, 1])),
        ["[2001:db8::1:0:0:1]:0"]
    );
    assert_eq!(
        ice_udp_addrs(IpAddress::V6([0x2001, 0xdb8, 0, 1, 0, 0, 0, 1])),
        ["[2001:db8:0:1::1]:0"]
    );
    assert_eq!(
        ice_udp_addrs(IpAddress::V6([0xfe80, 0, 0, 0, 0x1ff, 0xfe23, 0x4567, 0x890a])),
        ["[fe80::1ff:fe23:4567:890a]:0"]
    );
    assert_eq!(
        ice_udp_addrs(IpAddress::V6([1, 0, 2, 0, 3, 0, 4, 0])),
        ["[1:0:2:0:3:0:4:0]:0"]
    );
    assert_eq!(
        ice_udp_addrs(IpAddress::V6([0, 0, 0, 0, 0, 0xffff, 0xc000, 0x0201])),
        ["[::ffff:192.0.2.1]:0"]
    );
    assert_eq!(ice_udp_addrs(IpAddress::V6([1, 0, 0, 0, 0, 0, 0, 0])), ["[1::]:0"]);
}

#[test]
fn failed_peer_does_not_satisfy_connected_waiter() {
    assert_eq!(connection_wait_result(PeerState::Failed), Some(Err("WebRTC connection failed")));
    assert_eq!(connection_wait_result(PeerState::Closed), Some(Err("WebRTC connection closed")));
}

#[test]
fn disconnected_peer_can_recover_before_timeout() {
    assert_eq!(connection_wait_result(PeerState::Disconnected), None);
    assert_eq!(connection_wait_result(PeerState::Connected), Some(Ok(())));
}

#[test]
fn peer_state_reactions() {
    assert!(releases_session(PeerState::Failed));
    assert!(releases_session(PeerState::Closed));
    assert!(!releases_session(PeerState::Disconnected));
    assert_eq!(signaling_reaction(PeerState::Disconnected), SignalingReaction::AwaitReconnect);
    assert_eq!(signaling_reaction(PeerState::Failed), SignalingReaction::End);
    assert_eq!(signaling_reaction(PeerState::Connecting), SignalingReaction::Continue);
}

#[test]
fn websocket_token_must_match_exactly() {
    assert!(is_authorized(Some("token=deadbeef"), "deadbeef"));
    assert!(is_authorized(Some("x=1&token=deadbeef&token=other"), "deadbeef"));
    assert!(!is_authorized(Some("token=deadbee"), "deadbeef"));
    assert!(!is_authorized(Some("tok=deadbeef"), "deadbeef"));
    assert!(!is_authorized(None, "deadbeef"));
    assert_eq!(query_token_of("a=b&token="), Some(String::new()));
    assert_eq!(query_token_of("a=b"), None);
}

#[test]
fn session_tokens_are_32_hex_digits() {
    assert_eq!(
        session_token_from(0x0123456789abcdef, 0xff),
        "0123456789abcdef00000000000000ff"
    );
    let token = new_session_token();
    assert_eq!(token.len(), 32);
    assert!(token.chars().all(|c| c.is_ascii_hexdigit() && !c.is_ascii_uppercase()));
    assert!(is_authorized(Some(&format!("token={token}")), &token));
}

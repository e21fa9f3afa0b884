use lan_play::client::{check_ping_response, ping_request, PingError, RelayAction, RelayEvent, RelayState};

#[test]
fn ping_request_bytes() {
    assert_eq!(ping_request(), b"\x021234".to_vec());
}

#[test]
fn ping_answer_checks() {
    assert_eq!(check_ping_response(b"\x021234", 5), Ok(()));
    assert_eq!(check_ping_response(&[0u8; 5], 0), Err(PingError::NoAnswer));
    assert_eq!(check_ping_response(b"\x021234", 3), Err(PingError::WrongLength));
    assert_eq!(check_ping_response(b"\x021235", 5), Err(PingError::WrongAnswer));
}

#[test]
fn ping_error_messages() {
    assert_eq!(PingError::NoAnswer.message(), "the server seems not working, or blocked by the firewall");
    assert_eq!(PingError::WrongLength.message(), "wrong length of ping response");
    assert_eq!(PingError::WrongAnswer.message(), "wrong ping response");
}

#[test]
fn keepalive_and_ipv4_frames_to_the_relay() {
    let state = RelayState::new();
    assert_eq!(state.on_interval(), vec![0u8]);
    assert_eq!(state.on_ipv4(&[0x45u8; 20]), vec![1u8]);
}

fn relayed_packet() -> Vec<u8> {
    let mut p = vec![0x45, 0, 0, 20, 0, 0, 0x40, 0, 64, 17, 0, 0, 10, 13, 0, 9, 10, 13, 37, 2];
    p.insert(0, 1);
    p
}

#[test]
fn relayed_ipv4_goes_out_as_broadcast_when_nothing_is_known() {
    let state = RelayState::new();
    let frame = state.on_recv(&relayed_packet()).unwrap();
    assert_eq!(&frame[0..6], &[0xff; 6]);
    assert_eq!(&frame[6..12], &[0xff; 6]);
    assert_eq!(&frame[12..14], &[0x08, 0x00]);
    assert_eq!(&frame[14..], &relayed_packet()[1..]);
}

#[test]
fn relayed_ipv4_uses_known_addresses() {
    let mut state = RelayState::new();
    state.self_addr = Some([2, 0, 0, 0, 0, 1]);
    let key = u32::from_be_bytes([10, 13, 37, 2]);
    state.arp.insert(key, [2, 0, 0, 0, 0, 9]);
    let frame = state.on_recv(&relayed_packet()).unwrap();
    assert_eq!(&frame[0..6], &[2, 0, 0, 0, 0, 9]);
    assert_eq!(&frame[6..12], &[2, 0, 0, 0, 0, 1]);
    assert_eq!(frame.len(), 14 + 20);
}

#[test]
fn other_relay_frames_deliver_nothing() {
    let state = RelayState::new();
    assert!(state.on_recv(&[0]).is_none());
    assert!(state.on_recv(&[2, 1, 2, 3, 4]).is_none());
    assert!(state.on_recv(&[1, 2, 3]).is_none());
}

#[test]
fn relay_loop_rounds() {
    let state = RelayState::new();
    assert!(matches!(state.step(RelayEvent::Tick), RelayAction::Send(b) if b == vec![0u8]));
    assert!(matches!(state.step(RelayEvent::Captured(vec![0x45u8; 20])), RelayAction::Send(b) if b == vec![1u8]));
    match state.step(RelayEvent::Received(relayed_packet())) {
        RelayAction::Deliver(frame) => assert_eq!(&frame[14..], &relayed_packet()[1..]),
        other => panic!("unexpected {:?}", other),
    }
    assert!(matches!(state.step(RelayEvent::Received(vec![0u8])), RelayAction::Nothing));
    assert!(matches!(state.step(RelayEvent::CapturedClosed), RelayAction::Stop));
    assert!(matches!(state.step(RelayEvent::SocketFailed), RelayAction::Stop));
}

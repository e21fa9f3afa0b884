use lan_play::protocol::{Builder, ForwarderFrame, Ipv4, ParseError, Parser, Ping};

#[test]
fn keepalive_parses_from_its_type_byte() {
    let bytes = [0u8];
    assert!(matches!(ForwarderFrame::parse(&bytes), Ok(ForwarderFrame::Keepalive)));
}

#[test]
fn empty_frame_is_refused() {
    let bytes: [u8; 0] = [];
    assert_eq!(ForwarderFrame::parse(&bytes).err(), Some(ParseError::NotParseable));
}

#[test]
fn frame_longer_than_2048_is_refused() {
    let mut bytes = vec![0u8; 2049];
    bytes[0] = 0;
    assert!(ForwarderFrame::parse(&bytes).is_err());
    let ok = vec![0u8; 2048];
    assert!(ForwarderFrame::parse(&ok).is_ok());
}

#[test]
fn ipv4_frame_carries_its_body() {
    let mut bytes = vec![1u8];
    bytes.extend((0..20u8).collect::<Vec<u8>>());
    match ForwarderFrame::parse(&bytes) {
        Ok(ForwarderFrame::Ipv4(p)) => assert_eq!(p.payload(), &bytes[1..]),
        _ => panic!("not an ipv4 frame"),
    }
}

#[test]
fn ipv4_frame_with_short_body_is_refused() {
    let mut bytes = vec![1u8];
    bytes.extend([0u8; 19].iter());
    assert!(ForwarderFrame::parse(&bytes).is_err());
}

#[test]
fn ping_frame_needs_exactly_four_body_bytes() {
    assert!(matches!(ForwarderFrame::parse(&[2, 1, 2, 3, 4]), Ok(ForwarderFrame::Ping(_))));
    assert!(ForwarderFrame::parse(&[2, 1, 2, 3]).is_err());
    assert!(ForwarderFrame::parse(&[2, 1, 2, 3, 4, 5]).is_err());
}

#[test]
fn fragment_frame_needs_sixteen_body_bytes() {
    let mut bytes = vec![3u8];
    bytes.extend([7u8; 16].iter());
    assert!(matches!(ForwarderFrame::parse(&bytes), Ok(ForwarderFrame::Ipv4Frag(_))));
    bytes.pop();
    assert!(ForwarderFrame::parse(&bytes).is_err());
}

#[test]
fn auth_and_info_frames_ignore_their_body() {
    assert!(matches!(ForwarderFrame::parse(&[4, 9, 9]), Ok(ForwarderFrame::AuthMe)));
    assert!(matches!(ForwarderFrame::parse(&[0x10]), Ok(ForwarderFrame::Info)));
}

#[test]
fn unknown_type_is_refused() {
    assert!(ForwarderFrame::parse(&[5]).is_err());
    assert!(ForwarderFrame::parse(&[0xff, 1, 2]).is_err());
}

#[test]
fn build_writes_the_type_byte_only() {
    assert_eq!(ForwarderFrame::Keepalive.build(), vec![0u8]);
    assert_eq!(ForwarderFrame::AuthMe.build(), vec![4u8]);
    assert_eq!(ForwarderFrame::Info.build(), vec![0x10u8]);
    let packet = [0u8; 20];
    assert_eq!(ForwarderFrame::Ipv4(Ipv4::new(&packet)).build(), vec![1u8]);
}

#[test]
fn bodiless_frames_survive_build_and_parse() {
    for f in [ForwarderFrame::Keepalive, ForwarderFrame::AuthMe, ForwarderFrame::Info] {
        let typ = f.build();
        let back = ForwarderFrame::parse(&typ).unwrap();
        assert_eq!(back.build(), typ);
    }
}

#[test]
fn frames_with_body_do_not_survive_build_and_parse() {
    let packet = [0u8; 20];
    let built = ForwarderFrame::Ipv4(Ipv4::new(&packet)).build();
    assert!(ForwarderFrame::parse(&built).is_err());
}

#[test]
fn ping_body_parser_checks_length() {
    assert!(Ping::parse(&[1, 2, 3, 4]).is_ok());
    assert!(Ping::parse(&[1, 2, 3]).is_err());
}

#[test]
fn ipv4_body_parser_accepts_up_to_2048_bytes() {
    assert!(Ipv4::parse(&vec![0u8; 2048]).is_ok());
    assert!(Ipv4::parse(&vec![0u8; 2049]).is_err());
    assert!(Ipv4::parse(&vec![0u8; 19]).is_err());
}

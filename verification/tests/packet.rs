use lan_play::packet::{claims_any, filter_bad_packet, intercepts, Error, Ipv4Cidr};
use lan_play::wire::WireError;

fn ipv4_packet(src: [u8; 4], dst: [u8; 4], total_len: u16) -> Vec<u8> {
    let mut p = vec![0x45, 0, (total_len >> 8) as u8, total_len as u8, 0, 0, 0x40, 0, 64, 17, 0, 0];
    p.extend_from_slice(&src);
    p.extend_from_slice(&dst);
    p
}

fn ethernet_frame(ethertype: u16, payload: &[u8]) -> Vec<u8> {
    let mut f = vec![0x11, 0x22, 0x33, 0x44, 0x55, 0x66, 0x0a, 0x0b, 0x0c, 0x0d, 0x0e, 0x0f];
    f.push((ethertype >> 8) as u8);
    f.push(ethertype as u8);
    f.extend_from_slice(payload);
    f
}

#[test]
fn arp_frames_pass_the_filter() {
    let frame = ethernet_frame(0x0806, &[0u8; 28]);
    assert_eq!(filter_bad_packet(&frame), Ok(()));
}

#[test]
fn unicast_ipv4_passes_the_filter() {
    let frame = ethernet_frame(0x0800, &ipv4_packet([10, 13, 37, 2], [10, 13, 0, 1], 20));
    assert_eq!(filter_bad_packet(&frame), Ok(()));
}

#[test]
fn broadcast_multicast_and_zero_network_are_refused() {
    for dst in [[255, 255, 255, 255], [224, 0, 0, 1], [239, 1, 2, 3], [0, 1, 2, 3]] {
        let frame = ethernet_frame(0x0800, &ipv4_packet([10, 13, 37, 2], dst, 20));
        assert_eq!(filter_bad_packet(&frame), Err(Error::BadPacket));
    }
}

#[test]
fn other_ethertypes_are_refused() {
    let frame = ethernet_frame(0x86dd, &[0u8; 40]);
    assert_eq!(filter_bad_packet(&frame), Err(Error::BadPacket));
}

#[test]
fn short_frames_are_truncated() {
    assert_eq!(filter_bad_packet(&[0u8; 13]), Err(Error::Smoltcp(WireError::Truncated)));
    let frame = ethernet_frame(0x0800, &[0x45u8; 19]);
    assert_eq!(filter_bad_packet(&frame), Err(Error::Smoltcp(WireError::Truncated)));
}

#[test]
fn ipv4_shorter_than_its_header_is_malformed() {
    let frame = ethernet_frame(0x0800, &ipv4_packet([10, 13, 37, 2], [10, 13, 0, 1], 10));
    assert_eq!(filter_bad_packet(&frame), Err(Error::Smoltcp(WireError::Malformed)));
}

#[test]
fn ipv4_longer_than_the_buffer_is_truncated() {
    let frame = ethernet_frame(0x0800, &ipv4_packet([10, 13, 37, 2], [10, 13, 0, 1], 40));
    assert_eq!(filter_bad_packet(&frame), Err(Error::Smoltcp(WireError::Truncated)));
}

#[test]
fn cidr_membership_and_network() {
    let cidr = Ipv4Cidr::new([10, 13, 37, 2], 16);
    assert!(cidr.contains_addr([10, 13, 200, 9]));
    assert!(!cidr.contains_addr([10, 14, 0, 1]));
    let net = cidr.network();
    assert_eq!(net.address(), [10, 13, 0, 0]);
    assert_eq!(net.prefix_len(), 16);
    let all = Ipv4Cidr::new([1, 2, 3, 4], 0);
    assert!(all.contains_addr([200, 1, 1, 1]));
    assert_eq!(all.network().address(), [0, 0, 0, 0]);
    let one = Ipv4Cidr::new([1, 2, 3, 4], 32);
    assert!(one.contains_addr([1, 2, 3, 4]));
    assert!(!one.contains_addr([1, 2, 3, 5]));
}

#[test]
fn relay_claims_traffic_inside_the_block() {
    let cidr = Ipv4Cidr::new([10, 13, 0, 0], 16);
    let inside = ethernet_frame(0x0800, &ipv4_packet([10, 13, 37, 2], [10, 13, 1, 1], 20));
    assert!(intercepts(&cidr, &inside));
    let outgoing = ethernet_frame(0x0800, &ipv4_packet([10, 13, 37, 2], [8, 8, 8, 8], 20));
    assert!(!intercepts(&cidr, &outgoing));
    let incoming = ethernet_frame(0x0800, &ipv4_packet([8, 8, 8, 8], [10, 13, 37, 2], 20));
    assert!(!intercepts(&cidr, &incoming));
}

#[test]
fn relay_claims_frames_it_cannot_read() {
    let cidr = Ipv4Cidr::new([10, 13, 0, 0], 16);
    assert!(intercepts(&cidr, &[0u8; 10]));
    let arp = ethernet_frame(0x0806, &[0, 1, 8, 0, 6, 4, 0, 1, 0, 0, 0, 0, 0, 0, 0, 0, 0, 0, 0, 0, 0, 0, 0, 0, 0, 0, 0, 0]);
    assert!(intercepts(&cidr, &arp));
}

#[test]
fn hook_chain_claims_when_any_hook_does() {
    let hooks: Vec<fn(&[u8]) -> bool> = vec![|p| p.len() > 100, |p| p.first() == Some(&1)];
    assert!(claims_any(&hooks, &[1, 2, 3]));
    assert!(!claims_any(&hooks, &[2, 2, 3]));
    let none: Vec<fn(&[u8]) -> bool> = Vec::new();
    assert!(!claims_any(&none, &[1]));
}

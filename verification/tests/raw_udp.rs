use lan_play::raw_udp::{endpoint2socketaddr, parse_udp, parse_udp_owned, unwrap_v4, IpAddress, IpEndpoint, OwnedUdp, SocketAddr};
use lan_play::wire::WireError;

fn sum16(data: &[u8]) -> u32 {
    let mut sum = 0u32;
    let mut i = 0;
    while i < data.len() {
        let hi = data[i] as u32;
        let lo = if i + 1 < data.len() { data[i + 1] as u32 } else { 0 };
        sum += (hi << 8) | lo;
        i += 2;
    }
    while sum > 0xffff {
        sum = (sum & 0xffff) + (sum >> 16);
    }
    sum
}

fn sample() -> OwnedUdp {
    OwnedUdp::new(SocketAddr::V4([10, 13, 37, 2], 5000), SocketAddr::V4([8, 8, 8, 8], 53), b"hello".to_vec())
}

#[test]
fn raw_datagram_layout() {
    let raw = sample().to_raw();
    assert_eq!(raw.len(), 20 + 8 + 5);
    assert_eq!(raw[0], 0x45);
    assert_eq!(&raw[2..4], &[0, 33]);
    assert_eq!(&raw[6..8], &[0x40, 0]);
    assert_eq!(raw[8], 64);
    assert_eq!(raw[9], 17);
    assert_eq!(&raw[12..16], &[10, 13, 37, 2]);
    assert_eq!(&raw[16..20], &[8, 8, 8, 8]);
    assert_eq!(&raw[20..22], &5000u16.to_be_bytes());
    assert_eq!(&raw[22..24], &53u16.to_be_bytes());
    assert_eq!(&raw[24..26], &[0, 13]);
    assert_eq!(&raw[28..], b"hello");
}

#[test]
fn raw_datagram_checksums_verify() {
    let raw = sample().to_raw();
    assert_ne!(&raw[10..12], &[0, 0]);
    assert_eq!(sum16(&raw[0..20]), 0xffff);
    let mut pseudo = Vec::new();
    pseudo.extend_from_slice(&raw[12..20]);
    pseudo.extend_from_slice(&[0, 17, 0, 13]);
    pseudo.extend_from_slice(&raw[20..]);
    assert_eq!(sum16(&pseudo), 0xffff);
}

#[test]
fn raw_datagram_parses_back() {
    let u = sample();
    let raw = u.to_raw();
    let back = parse_udp_owned(&raw).unwrap();
    assert_eq!(back.src, u.src);
    assert_eq!(back.dst, u.dst);
    assert_eq!(back.data, u.data);
    let borrowed = parse_udp(&raw).unwrap();
    assert_eq!(borrowed.data, b"hello");
}

#[test]
fn parse_refuses_bad_datagrams() {
    let raw = sample().to_raw();
    assert_eq!(parse_udp(&raw[..10]).err(), Some(WireError::Truncated));
    let mut corrupt = raw.clone();
    corrupt[30] ^= 0xff;
    assert_eq!(parse_udp(&corrupt).err(), Some(WireError::Checksum));
    let mut version6 = raw.clone();
    version6[0] = 0x65;
    assert_eq!(parse_udp(&version6).err(), Some(WireError::Malformed));
    let zero_port = OwnedUdp::new(SocketAddr::V4([10, 13, 37, 2], 5000), SocketAddr::V4([8, 8, 8, 8], 0), vec![1]).to_raw();
    assert_eq!(parse_udp(&zero_port).err(), Some(WireError::Malformed));
}

#[test]
fn socket_addresses_of_endpoints() {
    let u = sample();
    assert_eq!(u.src(), SocketAddr::V4([10, 13, 37, 2], 5000));
    assert_eq!(u.dst(), SocketAddr::V4([8, 8, 8, 8], 53));
    let ep = IpEndpoint { addr: IpAddress::Ipv4([1, 2, 3, 4]), port: 9 };
    assert_eq!(endpoint2socketaddr(&ep), SocketAddr::V4([1, 2, 3, 4], 9));
    assert_eq!(unwrap_v4(IpAddress::Ipv4([5, 6, 7, 8])), [5, 6, 7, 8]);
    let v6 = OwnedUdp::new(SocketAddr::V6([0; 16], 1), SocketAddr::V4([1, 1, 1, 1], 2), vec![]);
    assert_eq!(v6.src, IpEndpoint { addr: IpAddress::Ipv6([0; 16]), port: 1 });
}

//! Byte-level views of Ethernet II frames, IPv4 packets and UDP datagrams,
//! and the smoltcp checks and emitters the rest of the library relies on.
//!
//! Field offsets follow the wire formats: an Ethernet header is 14 bytes
//! (destination, source, EtherType), an IPv4 header starts with the
//! version/IHL byte and carries the addresses at 12..16 and 16..20, a UDP
//! header is 8 bytes (source port, destination port, length, checksum).
use smoltcp::phy::ChecksumCapabilities;
use smoltcp::wire::{
    EthernetAddress, EthernetFrame, EthernetProtocol, EthernetRepr, IpAddress as SmolIpAddress,
    IpProtocol, Ipv4Address, Ipv4Cidr as SmolIpv4Cidr, Ipv4Packet, Ipv4Repr, UdpPacket, UdpRepr,
};
use vstd::arithmetic::power2::pow2;
use vstd::prelude::*;

verus! {

/// Why a frame, packet or datagram was rejected by smoltcp.
#[derive(Debug, Clone, Copy, PartialEq, Eq, Structural)]
pub enum WireError {
    /// Some field lies beyond the end of the buffer.
    Truncated,
    /// The header contradicts itself.
    Malformed,
    /// A checksum did not verify.
    Checksum,
    /// The packet is an IP fragment.
    Fragmented,
    /// Any other smoltcp error.
    Unrecognized,
}

/// Length of an Ethernet II header.
pub const ETHERNET_HEADER_LEN: usize = 14;
/// EtherType of IPv4.
pub const ETHERTYPE_IPV4: u16 = 0x0800;
/// EtherType of ARP.
pub const ETHERTYPE_ARP: u16 = 0x0806;
/// Length of an IPv4 header without options.
pub const IPV4_HEADER_LEN: usize = 20;
/// Length of a UDP header.
pub const UDP_HEADER_LEN: usize = 8;
/// IP protocol number of UDP.
pub const PROTOCOL_UDP: u8 = 17;

/// The big-endian 16-bit number stored at `s[i..i + 2]`.
pub open spec fn be16(s: Seq<u8>, i: int) -> int {
    s[i] as int * 256 + s[i + 1] as int
}

/// The EtherType field of an Ethernet frame.
pub open spec fn ethertype_of(frame: Seq<u8>) -> int {
    be16(frame, 12)
}

/// The destination MAC address of an Ethernet frame.
pub open spec fn eth_dst_of(frame: Seq<u8>) -> Seq<u8> {
    frame.subrange(0, 6)
}

/// The source MAC address of an Ethernet frame.
pub open spec fn eth_src_of(frame: Seq<u8>) -> Seq<u8> {
    frame.subrange(6, 12)
}

/// The payload of an Ethernet frame.
pub open spec fn eth_payload_of(frame: Seq<u8>) -> Seq<u8> {
    frame.subrange(ETHERNET_HEADER_LEN as int, frame.len() as int)
}

/// The header length of an IPv4 packet, from its IHL field, in bytes.
pub open spec fn ipv4_header_len(p: Seq<u8>) -> int {
    (p[0] % 16) as int * 4
}

/// The total length field of an IPv4 packet.
pub open spec fn ipv4_total_len(p: Seq<u8>) -> int {
    be16(p, 2)
}

/// The version field of an IPv4 packet.
pub open spec fn ipv4_version(p: Seq<u8>) -> int {
    (p[0] / 16) as int
}

/// The source address of an IPv4 packet.
pub open spec fn ipv4_src_of(p: Seq<u8>) -> Seq<u8> {
    p.subrange(12, 16)
}

/// The destination address of an IPv4 packet.
pub open spec fn ipv4_dst_of(p: Seq<u8>) -> Seq<u8> {
    p.subrange(16, 20)
}

/// The payload of a length-checked IPv4 packet: from the end of its header
/// to its total length.
pub open spec fn ipv4_payload_of(p: Seq<u8>) -> Seq<u8> {
    p.subrange(ipv4_header_len(p), ipv4_total_len(p))
}

/// What the length check of an IPv4 packet reports: `None` when every
/// header field and the whole payload lie within the buffer.
pub open spec fn ipv4_len_error(p: Seq<u8>) -> Option<WireError> {
    if p.len() < 20 {
        Some(WireError::Truncated)
    } else if p.len() < ipv4_header_len(p) {
        Some(WireError::Truncated)
    } else if ipv4_header_len(p) > ipv4_total_len(p) {
        Some(WireError::Malformed)
    } else if p.len() < ipv4_total_len(p) {
        Some(WireError::Truncated)
    } else {
        None
    }
}

/// The length field of a UDP datagram.
pub open spec fn udp_len_field(s: Seq<u8>) -> int {
    be16(s, 4)
}

/// What the length check of a UDP datagram reports.
pub open spec fn udp_len_error(s: Seq<u8>) -> Option<WireError> {
    if s.len() < 8 {
        Some(WireError::Truncated)
    } else if s.len() < udp_len_field(s) {
        Some(WireError::Truncated)
    } else if udp_len_field(s) < 8 {
        Some(WireError::Malformed)
    } else {
        None
    }
}

/// Whether a four-byte IPv4 address is unicast: not broadcast, not
/// multicast (224.0.0.0/4) and not in 0.0.0.0/8.
pub open spec fn ipv4_is_unicast(a: Seq<u8>) -> bool {
    !((a[0] == 255 && a[1] == 255 && a[2] == 255 && a[3] == 255) || (a[0] / 16 == 14) || a[0]
        == 0)
}

/// The IPv4 header that smoltcp writes for a payload of the given length
/// and protocol between the given addresses, with the given hop limit
/// (don't-fragment set).
pub uninterp spec fn ipv4_header_bytes(
    src: Seq<u8>,
    dst: Seq<u8>,
    protocol: u8,
    hop_limit: u8,
    payload_len: nat,
) -> Seq<u8>;

/// The UDP datagram (header and payload) that smoltcp writes for the given
/// addresses, ports and payload, checksum included.
pub uninterp spec fn udp_datagram(
    src: Seq<u8>,
    dst: Seq<u8>,
    src_port: u16,
    dst_port: u16,
    payload: Seq<u8>,
) -> Seq<u8>;

/// The fields smoltcp reads from an accepted IPv4 header.
#[derive(Debug, Clone, Copy)]
pub struct Ipv4Header {
    pub src_addr: [u8; 4],
    pub dst_addr: [u8; 4],
    pub protocol: u8,
    pub payload_len: usize,
    pub hop_limit: u8,
}

/// The fields smoltcp reads from an accepted UDP datagram.
pub struct UdpHeader<'a> {
    pub src_port: u16,
    pub dst_port: u16,
    pub payload: &'a [u8],
}

/// The mathematical content of a UDP parse result.
pub open spec fn udp_result_view(r: Result<UdpHeader, WireError>) -> Result<(u16, u16, Seq<u8>), WireError> {
    match r {
        Ok(u) => Ok((u.src_port, u.dst_port, u.payload@)),
        Err(e) => Err(e),
    }
}

/// A parse that gave the two ports and the payload.
pub open spec fn udp_ok(src_port: u16, dst_port: u16, payload: Seq<u8>) -> Result<(u16, u16, Seq<u8>), WireError> {
    Ok((src_port, dst_port, payload))
}

/// A parse that gave the header fields.
pub open spec fn ipv4_ok(src: [u8; 4], dst: [u8; 4], protocol: u8, payload_len: usize, hop_limit: u8) -> Result<Ipv4Header, WireError> {
    Ok(Ipv4Header { src_addr: src, dst_addr: dst, protocol, payload_len, hop_limit })
}

/// A rejection of a self-contradicting header.
pub open spec fn malformed<T>() -> Result<T, WireError> {
    Err(WireError::Malformed)
}

/// The result of smoltcp's IPv4 header parse, with default checksum
/// capabilities, of a length-checked packet.
pub uninterp spec fn ipv4_header_parse(packet: Seq<u8>) -> Result<Ipv4Header, WireError>;

/// The result of smoltcp's UDP parse, with default checksum capabilities,
/// of a length-checked datagram sent between the given IPv4 addresses:
/// the two ports and the payload.
pub uninterp spec fn udp_parse(datagram: Seq<u8>, src: Seq<u8>, dst: Seq<u8>) -> Result<(u16, u16, Seq<u8>), WireError>;

/// Checks the length of an Ethernet frame with
/// `smoltcp::wire::EthernetFrame::new_checked`, which accepts exactly the
/// buffers of at least 14 bytes and reports `Truncated` otherwise.
#[verifier::external_body]
pub(crate) fn ethernet_frame_check(frame: &[u8]) -> (r: Result<(), WireError>)
    ensures
        r is Ok <==> frame@.len() >= ETHERNET_HEADER_LEN,
        r matches Err(e) ==> e == WireError::Truncated,
{
    EthernetFrame::new_checked(frame).map(|_| ()).map_err(|e| match e {
        smoltcp::Error::Truncated => WireError::Truncated,
        smoltcp::Error::Malformed => WireError::Malformed,
        _ => WireError::Unrecognized,
    })
}

/// Checks the lengths of an IPv4 packet with
/// `smoltcp::wire::Ipv4Packet::new_checked`: at least 20 bytes, no shorter
/// than the header length, a total length no shorter than the header
/// length (else `Malformed`) and no longer than the buffer.
#[verifier::external_body]
pub(crate) fn ipv4_packet_check(packet: &[u8]) -> (r: Result<(), WireError>)
    ensures
        match ipv4_len_error(packet@) {
            None => r is Ok,
            Some(e) => r matches Err(x) && x == e,
        },
{
    Ipv4Packet::new_checked(packet).map(|_| ()).map_err(|e| match e {
        smoltcp::Error::Truncated => WireError::Truncated,
        smoltcp::Error::Malformed => WireError::Malformed,
        _ => WireError::Unrecognized,
    })
}

/// Checks the lengths of a UDP datagram with
/// `smoltcp::wire::UdpPacket::new_checked`: at least 8 bytes, no shorter
/// than its length field, and a length field of at least 8 (else
/// `Malformed`).
#[verifier::external_body]
pub(crate) fn udp_packet_check(datagram: &[u8]) -> (r: Result<(), WireError>)
    ensures
        match udp_len_error(datagram@) {
            None => r is Ok,
            Some(e) => r matches Err(x) && x == e,
        },
{
    UdpPacket::new_checked(datagram).map(|_| ()).map_err(|e| match e {
        smoltcp::Error::Truncated => WireError::Truncated,
        smoltcp::Error::Malformed => WireError::Malformed,
        _ => WireError::Unrecognized,
    })
}

/// Parses the header of a length-checked IPv4 packet with
/// `smoltcp::wire::Ipv4Repr::parse` and default checksum capabilities.
/// The source shows: a version other than 4 gives `Malformed`; an accepted
/// packet is not a fragment and its fields are read from the header.
/// Whether the header checksum verifies is left to the name
/// `ipv4_header_parse`.
#[verifier::external_body]
pub(crate) fn ipv4_repr_parse(packet: &[u8]) -> (r: Result<Ipv4Header, WireError>)
    requires
        ipv4_len_error(packet@) is None,
    ensures
        r == ipv4_header_parse(packet@),
        ipv4_version(packet@) != 4 ==> r == malformed::<Ipv4Header>(),
        r is Ok ==> ipv4_version(packet@) == 4,
        r matches Ok(h) ==> h.src_addr@ == ipv4_src_of(packet@) && h.dst_addr@ == ipv4_dst_of(packet@),
        r matches Ok(h) ==> h.protocol == packet@[9] && h.hop_limit == packet@[8],
        r matches Ok(h) ==> h.payload_len == ipv4_total_len(packet@) - ipv4_header_len(packet@),
{
    let p = Ipv4Packet::new_unchecked(packet);
    Ipv4Repr::parse(&p, &ChecksumCapabilities::default())
        .map(|r| Ipv4Header { src_addr: r.src_addr.0, dst_addr: r.dst_addr.0,
            protocol: u8::from(r.protocol), payload_len: r.payload_len, hop_limit: r.hop_limit })
        .map_err(|e| match e {
            smoltcp::Error::Malformed => WireError::Malformed,
            smoltcp::Error::Checksum => WireError::Checksum,
            smoltcp::Error::Fragmented => WireError::Fragmented,
            smoltcp::Error::Truncated => WireError::Truncated,
            _ => WireError::Unrecognized,
        })
}

/// Parses a length-checked UDP datagram with `smoltcp::wire::UdpRepr::parse`
/// and default checksum capabilities.  The source shows: a destination port
/// of 0 gives `Malformed`; an accepted datagram gives its two ports and the
/// bytes from the end of the header to its length field.  Whether the
/// checksum verifies is left to the name `udp_parse`.
#[verifier::external_body]
pub(crate) fn udp_repr_parse<'a>(datagram: &'a [u8], src: [u8; 4], dst: [u8; 4]) -> (r: Result<UdpHeader<'a>, WireError>)
    requires
        udp_len_error(datagram@) is None,
    ensures
        udp_result_view(r) == udp_parse(datagram@, src@, dst@),
        be16(datagram@, 2) == 0 ==> r == malformed::<UdpHeader<'a>>(),
        r matches Ok(u) ==> u.src_port == be16(datagram@, 0) && u.dst_port == be16(datagram@, 2),
        r matches Ok(u) ==> u.payload@ == datagram@.subrange(8, udp_len_field(datagram@)),
{
    let p = UdpPacket::new_unchecked(datagram);
    let (s, d) = (SmolIpAddress::Ipv4(Ipv4Address(src)), SmolIpAddress::Ipv4(Ipv4Address(dst)));
    UdpRepr::parse(&p, &s, &d, &ChecksumCapabilities::default())
        .map(|r| UdpHeader { src_port: r.src_port, dst_port: r.dst_port, payload: r.payload })
        .map_err(|e| match e {
            smoltcp::Error::Malformed => WireError::Malformed,
            smoltcp::Error::Checksum => WireError::Checksum,
            _ => WireError::Unrecognized,
        })
}

/// Writes a UDP datagram with `smoltcp::wire::UdpRepr::emit` and default
/// checksum capabilities into a buffer of exactly its length.  The source
/// shows the ports, the length field (8 plus the payload length) and the
/// payload as written; the checksum is left to the name `udp_datagram`.
/// The checksum written is the one the parse checks against, so the parse
/// with the same addresses gives back the ports and the payload, unless
/// the destination port is 0 (which the parse refuses).
#[verifier::external_body]
pub(crate) fn udp_repr_emit(src: [u8; 4], dst: [u8; 4], src_port: u16, dst_port: u16, payload: &[u8]) -> (r: Vec<u8>)
    requires
        payload@.len() + 8 <= u16::MAX,
    ensures
        r@ == udp_datagram(src@, dst@, src_port, dst_port, payload@),
        r@.len() == payload@.len() + 8,
        be16(r@, 0) == src_port,
        be16(r@, 2) == dst_port,
        udp_len_field(r@) == payload@.len() + 8,
        r@.subrange(8, r@.len() as int) == payload@,
        dst_port != 0 ==> udp_parse(r@, src@, dst@) == udp_ok(src_port, dst_port, payload@),
{
    let repr = UdpRepr { src_port, dst_port, payload };
    let mut bytes = vec![0u8; repr.buffer_len()];
    let (s, d) = (SmolIpAddress::Ipv4(Ipv4Address(src)), SmolIpAddress::Ipv4(Ipv4Address(dst)));
    repr.emit(&mut UdpPacket::new_unchecked(&mut bytes[..]), &s, &d, &ChecksumCapabilities::default());
    bytes
}

/// Writes a 20-byte IPv4 header with `smoltcp::wire::Ipv4Repr::emit` and
/// default checksum capabilities.  The source shows version 4 with a
/// 20-byte header, total length 20 plus the payload length, identification
/// 0, the don't-fragment flag alone, the given hop limit and protocol and
/// the two addresses; the header checksum is left to the name
/// `ipv4_header_bytes`.  The header checksum written is the one the header
/// parse checks, so a packet made of this header and a payload of the
/// announced length parses back to the same fields.
#[verifier::external_body]
pub(crate) fn ipv4_repr_emit(src: [u8; 4], dst: [u8; 4], protocol: u8, hop_limit: u8, payload_len: usize) -> (r: Vec<u8>)
    requires
        payload_len + 20 <= u16::MAX,
    ensures
        r@ == ipv4_header_bytes(src@, dst@, protocol, hop_limit, payload_len as nat),
        r@.len() == IPV4_HEADER_LEN,
        r@[0] == 0x45,
        r@[1] == 0,
        ipv4_total_len(r@) == payload_len + 20,
        r@[4] == 0 && r@[5] == 0,
        r@[6] == 0x40 && r@[7] == 0,
        r@[8] == hop_limit,
        r@[9] == protocol,
        ipv4_src_of(r@) == src@,
        ipv4_dst_of(r@) == dst@,
        forall|p: Seq<u8>|
            p.len() == payload_len + 20 && p.subrange(0, 20) == r@ ==> #[trigger] ipv4_header_parse(p)
                == ipv4_ok(src, dst, protocol, payload_len, hop_limit),
{
    let repr = Ipv4Repr {
        src_addr: Ipv4Address(src),
        dst_addr: Ipv4Address(dst),
        protocol: IpProtocol::from(protocol),
        payload_len,
        hop_limit,
    };
    let mut bytes = vec![0u8; repr.buffer_len()];
    repr.emit(&mut Ipv4Packet::new_unchecked(&mut bytes[..]), &ChecksumCapabilities::default());
    bytes
}

/// The 32-bit number of a four-byte IPv4 address, first byte most
/// significant.
pub open spec fn ipv4_number(a: Seq<u8>) -> int {
    a[0] as int * 0x1000000 + a[1] as int * 0x10000 + a[2] as int * 0x100 + a[3] as int
}

/// Whether the block of `prefix_len` leading bits of `address` contains
/// `addr`: every address when the prefix is empty, else those whose leading
/// `prefix_len` bits agree with the block's.
pub open spec fn cidr_contains_spec(address: Seq<u8>, prefix_len: nat, addr: Seq<u8>) -> bool {
    prefix_len == 0 || ipv4_number(address) / pow2((32 - prefix_len) as nat) as int
        == ipv4_number(addr) / pow2((32 - prefix_len) as nat) as int
}

/// The network address of a block: its address with every bit after the
/// prefix cleared.
pub open spec fn cidr_network_spec(address: Seq<u8>, prefix_len: nat) -> int {
    ipv4_number(address) / pow2((32 - prefix_len) as nat) as int * pow2(
        (32 - prefix_len) as nat,
    ) as int
}

/// Tests membership with `smoltcp::wire::Ipv4Cidr::contains_addr`, which
/// compares the leading `prefix_len` bits of the two addresses (every
/// address is contained in a block with an empty prefix).
#[verifier::external_body]
pub(crate) fn cidr_contains(address: [u8; 4], prefix_len: u8, addr: [u8; 4]) -> (r: bool)
    requires
        prefix_len <= 32,
    ensures
        r == cidr_contains_spec(address@, prefix_len as nat, addr@),
{
    SmolIpv4Cidr::new(Ipv4Address(address), prefix_len).contains_addr(&Ipv4Address(addr))
}

/// The network address of a block with `smoltcp::wire::Ipv4Cidr::network`,
/// which masks the address with the block's netmask.
#[verifier::external_body]
pub(crate) fn cidr_network(address: [u8; 4], prefix_len: u8) -> (r: [u8; 4])
    requires
        prefix_len <= 32,
    ensures
        ipv4_number(r@) == cidr_network_spec(address@, prefix_len as nat),
{
    SmolIpv4Cidr::new(Ipv4Address(address), prefix_len).network().address().0
}

/// Tells whether an IPv4 address is unicast with
/// `smoltcp::wire::Ipv4Address::is_unicast`: not 255.255.255.255, not
/// multicast (first byte 224 to 239) and not in 0.0.0.0/8.
#[verifier::external_body]
pub(crate) fn ipv4_addr_is_unicast(addr: [u8; 4]) -> (r: bool)
    ensures
        r == ipv4_is_unicast(addr@),
{
    Ipv4Address(addr).is_unicast()
}

/// Writes an Ethernet II header with `smoltcp::wire::EthernetRepr::emit`:
/// destination, source, then the EtherType in big-endian order.
#[verifier::external_body]
pub(crate) fn ethernet_repr_emit(src: [u8; 6], dst: [u8; 6], ethertype: u16) -> (r: Vec<u8>)
    ensures
        r@.len() == ETHERNET_HEADER_LEN,
        eth_dst_of(r@) == dst@,
        eth_src_of(r@) == src@,
        ethertype_of(r@) == ethertype,
{
    let repr = EthernetRepr {
        src_addr: EthernetAddress(src),
        dst_addr: EthernetAddress(dst),
        ethertype: EthernetProtocol::from(ethertype),
    };
    let mut bytes = vec![0u8; repr.buffer_len()];
    repr.emit(&mut EthernetFrame::new_unchecked(&mut bytes[..]));
    bytes
}

} // verus!

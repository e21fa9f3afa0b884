//! UDP datagrams as the gateway's raw IPv4 socket sees them: whole IPv4
//! packets carrying UDP, turned into owned (source, destination, payload)
//! records and back.
use crate::wire::{
    be16, ipv4_dst_of, ipv4_header_len, ipv4_header_parse, ipv4_len_error, ipv4_packet_check,
    ipv4_payload_of, ipv4_repr_emit, ipv4_repr_parse, ipv4_src_of, ipv4_total_len,
    ipv4_header_bytes, udp_datagram, udp_len_error, udp_len_field, udp_packet_check, udp_parse,
    udp_repr_emit, udp_repr_parse, Ipv4Header, WireError,
};
use vstd::prelude::*;

verus! {

/// An IP address as smoltcp represents it.
#[derive(Debug, Clone, Copy, PartialEq, Eq)]
pub enum IpAddress {
    Unspecified,
    Ipv4([u8; 4]),
    Ipv6([u8; 16]),
}

/// An address and a port.
#[derive(Debug, Clone, Copy, PartialEq, Eq)]
pub struct IpEndpoint {
    pub addr: IpAddress,
    pub port: u16,
}

/// A socket address as the standard library represents it.
#[derive(Debug, Clone, Copy, PartialEq, Eq)]
pub enum SocketAddr {
    V4([u8; 4], u16),
    V6([u8; 16], u16),
}

/// Whether an endpoint's address is IPv4.
pub open spec fn is_v4(ep: IpEndpoint) -> bool {
    ep.addr is Ipv4
}

/// The IPv4 address of an endpoint known to have one.
pub open spec fn v4_of(ep: IpEndpoint) -> [u8; 4] {
    ep.addr->Ipv4_0
}

/// The endpoint of a socket address.
pub open spec fn endpoint_of(a: SocketAddr) -> IpEndpoint {
    match a {
        SocketAddr::V4(ip, port) => IpEndpoint { addr: IpAddress::Ipv4(ip), port },
        SocketAddr::V6(ip, port) => IpEndpoint { addr: IpAddress::Ipv6(ip), port },
    }
}

/// The IPv4 address of an address known to be IPv4 (smoltcp panics on
/// any other).
pub fn unwrap_v4(addr: IpAddress) -> (r: [u8; 4])
    requires
        addr is Ipv4,
    ensures
        r == addr->Ipv4_0,
{
    match addr {
        IpAddress::Ipv4(v4) => v4,
        _ => {
            proof {
                assert(false);
            }
            [0u8; 4]
        },
    }
}

/// The socket address of an IPv4 endpoint.
pub fn endpoint2socketaddr(ep: &IpEndpoint) -> (r: SocketAddr)
    requires
        is_v4(*ep),
    ensures
        r == SocketAddr::V4(v4_of(*ep), ep.port),
{
    let ip = unwrap_v4(ep.addr);
    SocketAddr::V4(ip, ep.port)
}

/// The endpoint of a socket address.
pub fn socketaddr2endpoint(a: SocketAddr) -> (r: IpEndpoint)
    ensures
        r == endpoint_of(a),
{
    match a {
        SocketAddr::V4(ip, port) => IpEndpoint { addr: IpAddress::Ipv4(ip), port },
        SocketAddr::V6(ip, port) => IpEndpoint { addr: IpAddress::Ipv6(ip), port },
    }
}

/// A UDP datagram with its endpoints, owning its payload.
#[derive(Debug)]
pub struct OwnedUdp {
    pub src: IpEndpoint,
    pub dst: IpEndpoint,
    pub data: Vec<u8>,
}

/// A UDP datagram with its endpoints, borrowing its payload.
#[derive(Debug)]
pub struct Udp<'a> {
    pub src: IpEndpoint,
    pub dst: IpEndpoint,
    pub data: &'a [u8],
}

/// The bytes `to_raw` produces: a 20-byte IPv4 header followed by the UDP
/// datagram, both as smoltcp writes them.
pub open spec fn spec_to_raw(src: [u8; 4], dst: [u8; 4], src_port: u16, dst_port: u16, data: Seq<u8>) -> Seq<u8> {
    ipv4_header_bytes(src@, dst@, crate::wire::PROTOCOL_UDP, 64, data.len() + 8) + udp_datagram(src@, dst@, src_port, dst_port, data)
}

impl OwnedUdp {
    pub fn new(src: SocketAddr, dst: SocketAddr, data: Vec<u8>) -> (r: OwnedUdp)
        ensures
            r.src == endpoint_of(src),
            r.dst == endpoint_of(dst),
            r.data@ == data@,
    {
        OwnedUdp { src: socketaddr2endpoint(src), dst: socketaddr2endpoint(dst), data }
    }

    /// The source as a socket address (the source must be IPv4).
    pub fn src(&self) -> (r: SocketAddr)
        requires
            is_v4(self.src),
        ensures
            r == SocketAddr::V4(v4_of(self.src), self.src.port),
    {
        endpoint2socketaddr(&self.src)
    }

    /// The destination as a socket address (it must be IPv4).
    pub fn dst(&self) -> (r: SocketAddr)
        requires
            is_v4(self.dst),
        ensures
            r == SocketAddr::V4(v4_of(self.dst), self.dst.port),
    {
        endpoint2socketaddr(&self.dst)
    }

    /// The IPv4 packet carrying this datagram.  Both endpoints must be
    /// IPv4, and the packet must fit the 16-bit length fields.
    pub fn to_raw(&self) -> (r: Vec<u8>)
        requires
            is_v4(self.src),
            is_v4(self.dst),
            self.data@.len() + 28 <= u16::MAX,
        ensures
            r@ == spec_to_raw(v4_of(self.src), v4_of(self.dst), self.src.port, self.dst.port, self.data@),
            r@.len() == self.data@.len() + 28,
            ipv4_len_error(r@) is None,
            r@[9] == crate::wire::PROTOCOL_UDP,
            ipv4_src_of(r@) == v4_of(self.src)@,
            ipv4_dst_of(r@) == v4_of(self.dst)@,
            ipv4_payload_of(r@) == udp_datagram(v4_of(self.src)@, v4_of(self.dst)@, self.src.port, self.dst.port, self.data@),
            r@.subrange(28, r@.len() as int) == self.data@,
            r@[0] == 0x45,
            r@[6] == 0x40 && r@[7] == 0,
            r@[8] == 64,
            ipv4_total_len(r@) == self.data@.len() + 28,
            be16(r@, 20) == self.src.port,
            be16(r@, 22) == self.dst.port,
            be16(r@, 24) == self.data@.len() + 8,
            self.dst.port != 0 ==> spec_parse_udp(r@) == Ok::<_, WireError>(
                (v4_of(self.src)@, self.src.port, v4_of(self.dst)@, self.dst.port, self.data@),
            ),
    {
        let src_addr = unwrap_v4(self.src.addr);
        let dst_addr = unwrap_v4(self.dst.addr);
        let udp = udp_repr_emit(src_addr, dst_addr, self.src.port, self.dst.port, self.data.as_slice());
        let mut bytes = ipv4_repr_emit(src_addr, dst_addr, crate::wire::PROTOCOL_UDP, 64, udp.len());
        let ghost header = bytes@;
        let mut i: usize = 0;
        while i < udp.len()
            invariant
                i <= udp@.len(),
                bytes@ == header + udp@.subrange(0, i as int),
            decreases udp@.len() - i,
        {
            bytes.push(udp[i]);
            i += 1;
            assert(bytes@ =~= header + udp@.subrange(0, i as int));
        }
        assert(udp@.subrange(0, udp@.len() as int) =~= udp@);
        proof {
            let r = bytes@;
            assert(r.subrange(28, r.len() as int) =~= udp@.subrange(8, udp@.len() as int));
            assert(ipv4_src_of(r) =~= ipv4_src_of(header));
            assert(ipv4_dst_of(r) =~= ipv4_dst_of(header));
            assert(ipv4_payload_of(r) =~= udp@);
            assert(r.subrange(0, 20) =~= header);
            assert(ipv4_header_parse(r) == crate::wire::ipv4_ok(src_addr, dst_addr, crate::wire::PROTOCOL_UDP, udp@.len() as usize, 64));
        }
        bytes
    }
}

/// What parsing a raw IPv4 packet as a UDP datagram gives: the length
/// checks of the packet and of the datagram inside it, then smoltcp's
/// header parses; the endpoints come from the IPv4 addresses and the UDP
/// ports.
pub open spec fn spec_parse_udp(data: Seq<u8>) -> Result<(Seq<u8>, u16, Seq<u8>, u16, Seq<u8>), WireError> {
    match ipv4_len_error(data) {
        Some(e) => Err(e),
        None => match ipv4_header_parse(data) {
            Err(e) => Err(e),
            Ok(h) => {
                let seg = ipv4_payload_of(data);
                match udp_len_error(seg) {
                    Some(e) => Err(e),
                    None => match udp_parse(seg, h.src_addr@, h.dst_addr@) {
                        Err(e) => Err(e),
                        Ok(u) => Ok((h.src_addr@, u.0, h.dst_addr@, u.1, u.2)),
                    },
                }
            },
        },
    }
}

/// The mathematical content of a parsed datagram: source address and
/// port, destination address and port, payload.
pub open spec fn udp_view(u: Udp) -> (Seq<u8>, u16, Seq<u8>, u16, Seq<u8>) {
    (v4_of(u.src)@, u.src.port, v4_of(u.dst)@, u.dst.port, u.data@)
}

/// Parses a raw IPv4 packet as a UDP datagram, borrowing its payload.
pub fn parse_udp<'a>(data: &'a [u8]) -> (r: Result<Udp<'a>, WireError>)
    ensures
        r matches Ok(u) ==> is_v4(u.src) && is_v4(u.dst) && spec_parse_udp(data@) == Ok::<_, WireError>(udp_view(u)),
        r matches Err(e) ==> spec_parse_udp(data@) == Err::<(Seq<u8>, u16, Seq<u8>, u16, Seq<u8>), WireError>(e),
{
    match ipv4_packet_check(data) {
        Ok(()) => {},
        Err(e) => {
            return Err(e);
        },
    }
    let header = match ipv4_repr_parse(data) {
        Ok(h) => h,
        Err(e) => {
            return Err(e);
        },
    };
    let hl = (data[0] % 16) as usize * 4;
    let tl = crate::packet::read_be16(data, 2) as usize;
    let seg = &data[hl..tl];
    assert(seg@ == ipv4_payload_of(data@));
    match udp_packet_check(seg) {
        Ok(()) => {},
        Err(e) => {
            return Err(e);
        },
    }
    let udp = match udp_repr_parse(seg, header.src_addr, header.dst_addr) {
        Ok(u) => u,
        Err(e) => {
            return Err(e);
        },
    };
    let src = IpEndpoint { addr: IpAddress::Ipv4(header.src_addr), port: udp.src_port };
    let dst = IpEndpoint { addr: IpAddress::Ipv4(header.dst_addr), port: udp.dst_port };
    Ok(Udp { src, dst, data: udp.payload })
}

/// Parses a raw IPv4 packet as a UDP datagram, copying its payload.
pub fn parse_udp_owned(data: &[u8]) -> (r: Result<OwnedUdp, WireError>)
    ensures
        r matches Ok(u) ==> is_v4(u.src) && is_v4(u.dst) && spec_parse_udp(data@) == Ok::<_, WireError>(
            (v4_of(u.src)@, u.src.port, v4_of(u.dst)@, u.dst.port, u.data@),
        ),
        r matches Err(e) ==> spec_parse_udp(data@) == Err::<(Seq<u8>, u16, Seq<u8>, u16, Seq<u8>), WireError>(e),
{
    match parse_udp(data) {
        Ok(u) => {
            let Udp { src, dst, data } = u;
            Ok(OwnedUdp { src, dst, data: vstd::slice::slice_to_vec(data) })
        },
        Err(e) => Err(e),
    }
}

/// A packet that passes the two length checks and both smoltcp parses
/// reads as the datagram from the header's source address and the UDP
/// source port to the header's destination address and the UDP destination
/// port, carrying the UDP payload; no other header field decides it.
pub proof fn lemma_parse_udp_accepts(data: Seq<u8>, h: Ipv4Header, ports: (u16, u16, Seq<u8>))
    requires
        ipv4_len_error(data) is None,
        ipv4_header_parse(data) == Ok::<Ipv4Header, WireError>(h),
        udp_len_error(ipv4_payload_of(data)) is None,
        udp_parse(ipv4_payload_of(data), h.src_addr@, h.dst_addr@) == Ok::<(u16, u16, Seq<u8>), WireError>(ports),
    ensures
        spec_parse_udp(data) == Ok::<(Seq<u8>, u16, Seq<u8>, u16, Seq<u8>), WireError>(
            (h.src_addr@, ports.0, h.dst_addr@, ports.1, ports.2),
        ),
{
}

} // verus!

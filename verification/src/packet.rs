//! Classification of captured Ethernet frames: which frames the gateway
//! takes in, and which frames the relay client claims for the relay.
use crate::wire::{
    be16, cidr_contains, cidr_contains_spec, cidr_network, cidr_network_spec, eth_payload_of,
    ethernet_frame_check, ethertype_of, ipv4_addr_is_unicast, ipv4_dst_of, ipv4_is_unicast,
    ipv4_header_len, ipv4_len_error, ipv4_number, ipv4_packet_check, ipv4_src_of, ipv4_total_len,
    WireError, ETHERNET_HEADER_LEN,
    ETHERTYPE_ARP, ETHERTYPE_IPV4,
};
use vstd::prelude::*;

verus! {

/// Errors of the packet path.
#[derive(Debug, Clone, Copy, PartialEq, Eq, Structural)]
pub enum Error {
    /// No capture interface could be opened.
    NoInterface,
    /// smoltcp rejected a frame or packet.
    Smoltcp(WireError),
    /// The frame is not one the gateway handles.
    BadPacket,
}

/// An IPv4 address block: an address and a prefix length of at most 32.
#[derive(Debug, Clone, Copy)]
pub struct Ipv4Cidr {
    address: [u8; 4],
    prefix_len: u8,
}

impl View for Ipv4Cidr {
    type V = (Seq<u8>, nat);

    closed spec fn view(&self) -> (Seq<u8>, nat) {
        (self.address@, self.prefix_len as nat)
    }
}

impl Ipv4Cidr {
    #[verifier::type_invariant]
    closed spec fn inv(self) -> bool {
        self.prefix_len <= 32
    }

    /// The block of `prefix_len` leading bits of `address`; a prefix length
    /// above 32 is refused (smoltcp panics on it).
    pub fn new(address: [u8; 4], prefix_len: u8) -> (r: Ipv4Cidr)
        requires
            prefix_len <= 32,
        ensures
            r@ == (address@, prefix_len as nat),
    {
        Ipv4Cidr { address, prefix_len }
    }

    pub fn address(&self) -> (r: [u8; 4])
        ensures
            r@ == self@.0,
    {
        self.address
    }

    pub fn prefix_len(&self) -> (r: u8)
        ensures
            r == self@.1,
            r <= 32,
    {
        proof {
            use_type_invariant(self);
        }
        self.prefix_len
    }

    /// Whether the block contains `addr`.
    pub fn contains_addr(&self, addr: [u8; 4]) -> (r: bool)
        ensures
            r == cidr_contains_spec(self@.0, self@.1, addr@),
    {
        proof {
            use_type_invariant(self);
        }
        cidr_contains(self.address, self.prefix_len, addr)
    }

    /// The block with the same prefix length whose address has every bit
    /// after the prefix cleared.
    pub fn network(&self) -> (r: Ipv4Cidr)
        ensures
            r@.1 == self@.1,
            ipv4_number(r@.0) == cidr_network_spec(self@.0, self@.1),
    {
        proof {
            use_type_invariant(self);
        }
        let address = cidr_network(self.address, self.prefix_len);
        Ipv4Cidr { address, prefix_len: self.prefix_len }
    }
}

/// Reads the big-endian 16-bit number at `s[i..i + 2]`.
pub fn read_be16(s: &[u8], i: usize) -> (r: u16)
    requires
        i + 2 <= s@.len(),
    ensures
        r == be16(s@, i as int),
{
    s[i] as u16 * 256 + s[i + 1] as u16
}

/// Reads the four bytes at `s[i..i + 4]`.
pub fn read_ipv4_addr(s: &[u8], i: usize) -> (r: [u8; 4])
    requires
        i + 4 <= s@.len(),
    ensures
        r@ == s@.subrange(i as int, i + 4),
{
    let r = [s[i], s[i + 1], s[i + 2], s[i + 3]];
    assert(r@ =~= s@.subrange(i as int, i + 4));
    r
}

/// What the gateway's frame filter decides for a captured frame: ARP
/// frames pass; IPv4 frames pass when their packet is well formed and
/// addressed to a unicast destination; everything else is refused.
pub open spec fn spec_filter_bad_packet(frame: Seq<u8>) -> Result<(), Error> {
    if frame.len() < ETHERNET_HEADER_LEN {
        Err(Error::Smoltcp(WireError::Truncated))
    } else if ethertype_of(frame) == ETHERTYPE_ARP {
        Ok(())
    } else if ethertype_of(frame) == ETHERTYPE_IPV4 {
        let packet = eth_payload_of(frame);
        match ipv4_len_error(packet) {
            Some(e) => Err(Error::Smoltcp(e)),
            None => if ipv4_is_unicast(ipv4_dst_of(packet)) {
                Ok(())
            } else {
                Err(Error::BadPacket)
            },
        }
    } else {
        Err(Error::BadPacket)
    }
}

/// Decides whether a captured frame is handed to the gateway's network
/// stack.
pub fn filter_bad_packet(packet: &[u8]) -> (r: Result<(), Error>)
    ensures
        r == spec_filter_bad_packet(packet@),
{
    match ethernet_frame_check(packet) {
        Ok(()) => {},
        Err(e) => {
            return Err(Error::Smoltcp(e));
        },
    }
    let ethertype = read_be16(packet, 12);
    if ethertype == ETHERTYPE_ARP {
        Ok(())
    } else if ethertype == ETHERTYPE_IPV4 {
        let ip = &packet[ETHERNET_HEADER_LEN..packet.len()];
        assert(ip@ == eth_payload_of(packet@));
        match ipv4_packet_check(ip) {
            Ok(()) => {},
            Err(e) => {
                return Err(Error::Smoltcp(e));
            },
        }
        let dst = read_ipv4_addr(ip, 16);
        if !ipv4_addr_is_unicast(dst) {
            Err(Error::BadPacket)
        } else {
            Ok(())
        }
    } else {
        Err(Error::BadPacket)
    }
}

/// Whether the relay client claims a captured frame: it does when the
/// frame is too short for an Ethernet header, when its payload is not a
/// length-consistent IPv4 packet, or when both the source and the
/// destination of that packet lie in the relayed block.
pub open spec fn spec_intercepts(cidr: (Seq<u8>, nat), frame: Seq<u8>) -> bool {
    frame.len() < ETHERNET_HEADER_LEN || {
        let packet = eth_payload_of(frame);
        ipv4_len_error(packet) is Some || (cidr_contains_spec(cidr.0, cidr.1, ipv4_src_of(packet))
            && cidr_contains_spec(cidr.0, cidr.1, ipv4_dst_of(packet)))
    }
}

fn intercept_check(cidr: &Ipv4Cidr, pkt: &[u8]) -> (r: Result<(), Error>)
    ensures
        r is Err <==> spec_intercepts(cidr@, pkt@),
{
    match ethernet_frame_check(pkt) {
        Ok(()) => {},
        Err(e) => {
            return Err(Error::Smoltcp(e));
        },
    }
    let packet = &pkt[ETHERNET_HEADER_LEN..pkt.len()];
    assert(packet@ == eth_payload_of(pkt@));
    match ipv4_packet_check(packet) {
        Ok(()) => {},
        Err(e) => {
            return Err(Error::Smoltcp(e));
        },
    }
    let src = read_ipv4_addr(packet, 12);
    let dst = read_ipv4_addr(packet, 16);
    if cidr.contains_addr(src) && cidr.contains_addr(dst) {
        return Err(Error::BadPacket);
    }
    Ok(())
}

/// The relay client's frame hook: `true` claims the frame for the relay.
pub fn intercepts(cidr: &Ipv4Cidr, pkt: &[u8]) -> (r: bool)
    ensures
        r == spec_intercepts(cidr@, pkt@),
{
    intercept_check(cidr, pkt).is_err()
}

/// Whether a chain of frame hooks claims a frame: the hooks are asked in
/// order, and the first that claims it ends the asking.
pub fn claims_any<F: Fn(&[u8]) -> bool>(hooks: &Vec<F>, packet: &[u8]) -> (r: bool)
    requires
        forall|i: int| 0 <= i < hooks@.len() ==> hooks@[i].requires((packet,)),
    ensures
        r ==> exists|i: int|
            0 <= i < hooks@.len() && hooks@[i].ensures((packet,), true) && forall|j: int|
                0 <= j < i ==> hooks@[j].ensures((packet,), false),
        !r ==> forall|j: int| 0 <= j < hooks@.len() ==> hooks@[j].ensures((packet,), false),
{
    let mut i: usize = 0;
    while i < hooks.len()
        invariant
            i <= hooks@.len(),
            forall|k: int| 0 <= k < hooks@.len() ==> hooks@[k].requires((packet,)),
            forall|j: int| 0 <= j < i ==> hooks@[j].ensures((packet,), false),
        decreases hooks@.len() - i,
    {
        let hook = &hooks[i];
        if hook(packet) {
            assert(hooks@[i as int].ensures((packet,), true));
            return true;
        }
        i += 1;
    }
    false
}

/// An IPv4 frame whose packet has at least 20 bytes, a header length no
/// longer than its total length, and a total length no longer than the
/// bytes captured (trailing padding allowed), and whose destination is
/// unicast, is taken in; ARP frames are always taken in.
pub proof fn lemma_filter_takes_wellformed_unicast(frame: Seq<u8>)
    ensures
        frame.len() >= ETHERNET_HEADER_LEN && ethertype_of(frame) == ETHERTYPE_ARP
            ==> spec_filter_bad_packet(frame) == Ok::<(), Error>(()),
        ({
            let p = eth_payload_of(frame);
            frame.len() >= ETHERNET_HEADER_LEN && ethertype_of(frame) == ETHERTYPE_IPV4 && p.len()
                >= 20 && ipv4_header_len(p) <= ipv4_total_len(p) && ipv4_total_len(p) <= p.len()
                && ipv4_is_unicast(ipv4_dst_of(p))
        }) ==> spec_filter_bad_packet(frame) == Ok::<(), Error>(()),
{
}

/// Bytes after the end of an IPv4 packet (Ethernet padding) do not change
/// what the filter decides for a frame whose packet is well formed.
pub proof fn lemma_filter_ignores_padding(frame: Seq<u8>, pad: Seq<u8>)
    requires
        frame.len() >= ETHERNET_HEADER_LEN,
        ethertype_of(frame) == ETHERTYPE_IPV4,
        eth_payload_of(frame).len() >= 20,
        ipv4_header_len(eth_payload_of(frame)) <= ipv4_total_len(eth_payload_of(frame)),
        ipv4_total_len(eth_payload_of(frame)) <= eth_payload_of(frame).len(),
    ensures
        spec_filter_bad_packet(frame + pad) == spec_filter_bad_packet(frame),
{
    let f2 = frame + pad;
    let p = eth_payload_of(frame);
    let p2 = eth_payload_of(f2);
    assert(p2 =~= p + pad);
    assert(forall|i: int| 0 <= i < p.len() ==> p2[i] == p[i]);
    assert(f2[12] == frame[12] && f2[13] == frame[13]);
    assert(ipv4_dst_of(p2) =~= ipv4_dst_of(p));
}

/// The relay client claims a frame whose IPv4 packet has at least 20
/// bytes, a header length no longer than its total length, a total length
/// no longer than the bytes captured (trailing padding allowed), and a
/// source and destination both in the block; it leaves such a frame alone
/// when the source or the destination lies outside the block.
pub proof fn lemma_intercepts_block_traffic(cidr: (Seq<u8>, nat), frame: Seq<u8>)
    requires
        frame.len() >= ETHERNET_HEADER_LEN,
        eth_payload_of(frame).len() >= 20,
        ipv4_header_len(eth_payload_of(frame)) <= ipv4_total_len(eth_payload_of(frame)),
        ipv4_total_len(eth_payload_of(frame)) <= eth_payload_of(frame).len(),
    ensures
        spec_intercepts(cidr, frame) == (cidr_contains_spec(cidr.0, cidr.1, ipv4_src_of(eth_payload_of(frame)))
            && cidr_contains_spec(cidr.0, cidr.1, ipv4_dst_of(eth_payload_of(frame)))),
{
}

/// Bytes after the end of a well-formed IPv4 packet (Ethernet padding) do
/// not change whether the relay client claims the frame.
pub proof fn lemma_intercepts_ignore_padding(cidr: (Seq<u8>, nat), frame: Seq<u8>, pad: Seq<u8>)
    requires
        frame.len() >= ETHERNET_HEADER_LEN,
        eth_payload_of(frame).len() >= 20,
        ipv4_header_len(eth_payload_of(frame)) <= ipv4_total_len(eth_payload_of(frame)),
        ipv4_total_len(eth_payload_of(frame)) <= eth_payload_of(frame).len(),
    ensures
        spec_intercepts(cidr, frame + pad) == spec_intercepts(cidr, frame),
{
    let f2 = frame + pad;
    let p = eth_payload_of(frame);
    let p2 = eth_payload_of(f2);
    assert(p2 =~= p + pad);
    assert(forall|i: int| 0 <= i < p.len() ==> p2[i] == p[i]);
    assert(ipv4_src_of(p2) =~= ipv4_src_of(p));
    assert(ipv4_dst_of(p2) =~= ipv4_dst_of(p));
}

} // verus!

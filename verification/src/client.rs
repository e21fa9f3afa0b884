//! The relay client: what it sends to the relay server, what it makes of
//! the server's frames, and how it checks a ping answer.
use crate::packet::read_ipv4_addr;
use crate::protocol::{
    frame_body, spec_parse_frame, Builder, ForwarderFrame, FrameView, Ipv4, Parser,
};
use crate::wire::{eth_dst_of, eth_src_of, ethernet_repr_emit, ethertype_of, ipv4_number,
    ETHERNET_HEADER_LEN, ETHERTYPE_IPV4};
use std::collections::HashMap;
use vstd::prelude::*;

verus! {

/// The broadcast MAC address.
pub const BROADCAST_MAC: [u8; 6] = [0xff, 0xff, 0xff, 0xff, 0xff, 0xff];

/// The ping request sent to the relay server: a ping frame with body
/// "1234".
pub open spec fn spec_ping_request() -> Seq<u8> {
    seq![2u8, 0x31u8, 0x32u8, 0x33u8, 0x34u8]
}

/// The ping request sent to the relay server.
pub fn ping_request() -> (r: Vec<u8>)
    ensures
        r@ == spec_ping_request(),
{
    let r = vec![2u8, 0x31u8, 0x32u8, 0x33u8, 0x34u8];
    assert(r@ =~= spec_ping_request());
    r
}

/// Why a ping answer is refused.
#[derive(Debug, Clone, Copy, PartialEq, Eq, Structural)]
pub enum PingError {
    /// Nothing came back.
    NoAnswer,
    /// The answer is not five bytes long.
    WrongLength,
    /// The answer differs from the request.
    WrongAnswer,
}

impl PingError {
    /// The text of the error.
    pub fn message(&self) -> (r: &'static str)
        ensures
            *self == PingError::NoAnswer ==> r@
                == "the server seems not working, or blocked by the firewall"@,
            *self == PingError::WrongLength ==> r@ == "wrong length of ping response"@,
            *self == PingError::WrongAnswer ==> r@ == "wrong ping response"@,
    {
        match self {
            PingError::NoAnswer => "the server seems not working, or blocked by the firewall",
            PingError::WrongLength => "wrong length of ping response",
            PingError::WrongAnswer => "wrong ping response",
        }
    }
}

/// What a ping answer is judged: `size` bytes were received into the
/// five-byte buffer `buf`.
pub open spec fn spec_check_ping(buf: Seq<u8>, size: nat) -> Result<(), PingError> {
    if size == 0 {
        Err(PingError::NoAnswer)
    } else if size != 5 {
        Err(PingError::WrongLength)
    } else if buf != spec_ping_request() {
        Err(PingError::WrongAnswer)
    } else {
        Ok(())
    }
}

/// Judges a ping answer: `size` bytes were received into `buf`.
pub fn check_ping_response(buf: &[u8], size: usize) -> (r: Result<(), PingError>)
    ensures
        r == spec_check_ping(buf@, size as nat),
{
    if size == 0 {
        return Err(PingError::NoAnswer);
    }
    if size != 5 {
        return Err(PingError::WrongLength);
    }
    let content = ping_request();
    if buf.len() != 5 {
        assert(spec_ping_request().len() == 5);
        assert(buf@ != spec_ping_request());
        return Err(PingError::WrongAnswer);
    }
    let mut i: usize = 0;
    while i < 5
        invariant
            i <= 5,
            size == 5,
            buf@.len() == 5,
            content@ == spec_ping_request(),
            forall|j: int| 0 <= j < i ==> buf@[j] == content@[j],
        decreases 5 - i,
    {
        if buf[i] != content[i] {
            assert(buf@[i as int] != spec_ping_request()[i as int]);
            assert(buf@ != spec_ping_request());
            return Err(PingError::WrongAnswer);
        }
        i += 1;
    }
    assert(buf@ =~= spec_ping_request());
    Ok(())
}

/// The frame delivered on the captured network for an IPv4 packet that
/// came from the relay: from our own MAC address (broadcast when unknown)
/// to the MAC address learnt for the packet's destination (broadcast when
/// unknown), with the packet as payload.
pub open spec fn spec_relay_frame(frame: Seq<u8>, payload: Seq<u8>, src_mac: Seq<u8>, dst_mac: Seq<u8>) -> bool {
    &&& frame.len() == payload.len() + ETHERNET_HEADER_LEN
    &&& eth_dst_of(frame) == dst_mac
    &&& eth_src_of(frame) == src_mac
    &&& ethertype_of(frame) == ETHERTYPE_IPV4
    &&& frame.subrange(ETHERNET_HEADER_LEN as int, frame.len() as int) == payload
}

/// What the client knows of the captured network: its own MAC address and
/// the MAC addresses of IPv4 hosts (by address number).
pub struct RelayState {
    pub self_addr: Option<[u8; 6]>,
    pub arp: HashMap<u32, [u8; 6]>,
}

/// The MAC address a lookup settles on: the one found, or broadcast.
pub open spec fn mac_or_broadcast(m: Option<[u8; 6]>) -> Seq<u8> {
    match m {
        Some(a) => a@,
        None => BROADCAST_MAC@,
    }
}

impl RelayState {
    /// Nothing known yet.
    pub fn new() -> (r: RelayState)
        ensures
            r.self_addr is None,
            r.arp@ == Map::<u32, [u8; 6]>::empty(),
    {
        RelayState { self_addr: None, arp: HashMap::new() }
    }

    /// The frame sent to the relay server every keepalive period.
    pub fn on_interval(&self) -> (r: Vec<u8>)
        ensures
            r@ == seq![crate::protocol::KEEPALIVE],
    {
        let keepalive = ForwarderFrame::Keepalive;
        keepalive.build()
    }

    /// The frame sent to the relay server for an IPv4 packet claimed from
    /// the captured network.
    pub fn on_ipv4(&self, pkt: &[u8]) -> (r: Vec<u8>)
        ensures
            r@ == ForwarderFrame::spec_build(FrameView::Ipv4(pkt@)),
    {
        let packet = ForwarderFrame::Ipv4(Ipv4::new(pkt));
        packet.build()
    }

    /// The Ethernet frame to deliver on the captured network for what the
    /// relay server sent, if it is an IPv4 frame; other frames give
    /// nothing.
    pub fn on_recv(&self, buf: &[u8]) -> (r: Option<Vec<u8>>)
        ensures
            !(spec_parse_frame(buf@) matches Some(FrameView::Ipv4(_))) ==> r is None,
            spec_parse_frame(buf@) matches Some(FrameView::Ipv4(p)) ==> r matches Some(f)
                && spec_relay_frame(
                f@,
                p,
                mac_or_broadcast(self.self_addr),
                mac_or_broadcast(
                    if self.arp@.contains_key(ipv4_number(p.subrange(16, 20)) as u32) {
                        Some(self.arp@[ipv4_number(p.subrange(16, 20)) as u32])
                    } else {
                        None
                    },
                ),
            ),
    {
        broadcast use vstd::std_specs::hash::group_hash_axioms;

        let parsed = ForwarderFrame::parse(buf);
        proof {
            crate::protocol::lemma_forwarder_parse_spec(buf@);
            if parsed is Ok {
                assert(spec_parse_frame(buf@) == Some(parsed->Ok_0@));
            } else {
                assert(spec_parse_frame(buf@) is None);
            }
        }
        match parsed {
            Ok(ForwarderFrame::Ipv4(pkt)) => {
                let payload = pkt.payload();
                assert(payload@.len() >= 20);
                let dst_ip = read_ipv4_addr(payload, 16);
                let key: u32 = dst_ip[0] as u32 * 0x1000000 + dst_ip[1] as u32 * 0x10000
                    + dst_ip[2] as u32 * 0x100 + dst_ip[3] as u32;
                assert(key == ipv4_number(payload@.subrange(16, 20)));
                let src_mac = match self.self_addr {
                    Some(a) => a,
                    None => BROADCAST_MAC,
                };
                let dst_mac = match self.arp.get(&key) {
                    Some(a) => *a,
                    None => BROADCAST_MAC,
                };
                let mut frame = ethernet_repr_emit(src_mac, dst_mac, ETHERTYPE_IPV4);
                let ghost header = frame@;
                let mut i: usize = 0;
                while i < payload.len()
                    invariant
                        i <= payload@.len(),
                        frame@ == header + payload@.subrange(0, i as int),
                    decreases payload@.len() - i,
                {
                    frame.push(payload[i]);
                    i += 1;
                    assert(frame@ =~= header + payload@.subrange(0, i as int));
                }
                proof {
                    assert(payload@.subrange(0, payload@.len() as int) =~= payload@);
                    assert(eth_dst_of(frame@) =~= eth_dst_of(header));
                    assert(eth_src_of(frame@) =~= eth_src_of(header));
                    assert(frame@.subrange(ETHERNET_HEADER_LEN as int, frame@.len() as int)
                        =~= payload@);
                    assert(src_mac@ == mac_or_broadcast(self.self_addr));
                }
                Some(frame)
            },
            _ => None,
        }
    }
}

/// What the relay client's loop is woken by.
#[derive(Debug)]
pub enum RelayEvent {
    /// The keepalive timer fired.
    Tick,
    /// A captured IPv4 packet is to go to the relay server.
    Captured(Vec<u8>),
    /// A datagram came from the relay server.
    Received(Vec<u8>),
    /// The queue of captured packets was closed.
    CapturedClosed,
    /// Receiving from the relay server failed.
    SocketFailed,
}

/// What the relay client's loop does next.
#[derive(Debug)]
pub enum RelayAction {
    /// Send these bytes to the relay server.
    Send(Vec<u8>),
    /// Hand this Ethernet frame to the captured network.
    Deliver(Vec<u8>),
    /// Nothing to do.
    Nothing,
    /// Leave the loop.
    Stop,
}

/// The MAC address of the destination of a relayed IPv4 packet: the one
/// learned for its address, else broadcast.
pub open spec fn arp_mac(st: RelayState, p: Seq<u8>) -> Seq<u8> {
    mac_or_broadcast(
        if st.arp@.contains_key(ipv4_number(p.subrange(16, 20)) as u32) {
            Some(st.arp@[ipv4_number(p.subrange(16, 20)) as u32])
        } else {
            None
        },
    )
}

/// What one round of the relay client's loop does: a tick sends a
/// keepalive, a captured packet goes out as an IPv4 frame, a datagram from
/// the relay that is an IPv4 frame is delivered as an Ethernet frame (any
/// other is ignored), and a closed queue or a failed socket ends the loop.
pub open spec fn spec_relay_step(st: RelayState, ev: RelayEvent, r: RelayAction) -> bool {
    match ev {
        RelayEvent::Tick => r matches RelayAction::Send(b) && b@ == seq![crate::protocol::KEEPALIVE],
        RelayEvent::Captured(p) => r matches RelayAction::Send(b) && b@
            == ForwarderFrame::spec_build(FrameView::Ipv4(p@)),
        RelayEvent::Received(buf) => match spec_parse_frame(buf@) {
            Some(FrameView::Ipv4(p)) => r matches RelayAction::Deliver(f) && spec_relay_frame(
                f@,
                p,
                mac_or_broadcast(st.self_addr),
                arp_mac(st, p),
            ),
            _ => r is Nothing,
        },
        RelayEvent::CapturedClosed => r is Stop,
        RelayEvent::SocketFailed => r is Stop,
    }
}

impl RelayState {
    /// One round of the relay client's loop.
    pub fn step(&self, event: RelayEvent) -> (r: RelayAction)
        ensures
            spec_relay_step(*self, event, r),
    {
        match event {
            RelayEvent::Tick => RelayAction::Send(self.on_interval()),
            RelayEvent::Captured(p) => RelayAction::Send(self.on_ipv4(p.as_slice())),
            RelayEvent::Received(buf) => match self.on_recv(buf.as_slice()) {
                Some(f) => RelayAction::Deliver(f),
                None => RelayAction::Nothing,
            },
            RelayEvent::CapturedClosed => RelayAction::Stop,
            RelayEvent::SocketFailed => RelayAction::Stop,
        }
    }
}

} // verus!

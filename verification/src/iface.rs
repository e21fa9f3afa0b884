//! Capture interfaces: which ones are used, what is learnt about each, the
//! capture filter they get, and the results the capture library reports.
use crate::packet::{Error, Ipv4Cidr};
use crate::text::{dec, dotted, push_char, push_decimal, push_dotted, push_str, string_eq};
use crate::wire::{cidr_network_spec, ipv4_number};
use vstd::prelude::*;

verus! {

/// Why the MAC address of an interface could not be found.
#[derive(Debug, Clone, Copy, PartialEq, Eq, Structural)]
pub enum GetAddressError {
    NotFound,
    FailedToCallSystem,
}

/// The link layer of a capture interface.
#[derive(Debug, Clone, Copy, PartialEq, Eq, Structural)]
pub enum DataLink {
    Ethernet,
    RawIp,
    Other,
}

/// The link layer named by a pcap data-link code: 1 is Ethernet, 12 raw
/// IP, anything else other.
pub fn data_link_from_code(code: i32) -> (r: DataLink)
    ensures
        code == 1 ==> r == DataLink::Ethernet,
        code == 12 ==> r == DataLink::RawIp,
        code != 1 && code != 12 ==> r == DataLink::Other,
{
    if code == 1 {
        DataLink::Ethernet
    } else if code == 12 {
        DataLink::RawIp
    } else {
        DataLink::Other
    }
}

/// The pcap result code of success.
pub const SUCCESS: i32 = 0;
/// The pcap result code of a capture loop that was broken off.
pub const PCAP_ERROR_BREAK: i32 = -2;

/// Whether a capture loop ended well: it succeeded or was broken off.
pub fn loop_ended_well(result: i32) -> (r: bool)
    ensures
        r == (result == SUCCESS || result == PCAP_ERROR_BREAK),
{
    result == SUCCESS || result == PCAP_ERROR_BREAK
}

/// The positive error number of a (possibly negated) error code; the most
/// negative code has no positive counterpart and is refused.
pub fn corrected_err_code(code: i32) -> (r: i32)
    requires
        code != i32::MIN,
    ensures
        r >= 0,
        r == code || r == -code,
{
    if code < 0 {
        -code
    } else {
        code
    }
}

/// The name and description of a capture interface.
#[derive(Debug)]
pub struct InterfaceDescription {
    pub name: String,
    pub description: String,
}

/// What the system says of an interface.
#[derive(Debug)]
pub struct InterfaceInfo {
    pub ethernet_address: [u8; 6],
    pub name: String,
    pub description: Option<String>,
}

impl InterfaceInfo {
    /// Nothing known: the broadcast address, no name, no description.
    pub fn default() -> (r: InterfaceInfo)
        ensures
            r.ethernet_address@ == seq![0xffu8, 0xffu8, 0xffu8, 0xffu8, 0xffu8, 0xffu8],
            r.name@ == Seq::<char>::empty(),
            r.description is None,
    {
        let r = InterfaceInfo {
            ethernet_address: [0xff, 0xff, 0xff, 0xff, 0xff, 0xff],
            name: String::new(),
            description: None,
        };
        assert(r.ethernet_address@ =~= seq![0xffu8, 0xffu8, 0xffu8, 0xffu8, 0xffu8, 0xffu8]);
        r
    }
}

/// One address entry of the system's interface list: the interface name
/// and, for a link-layer entry, its MAC address.
pub struct IfAddr {
    pub interface_name: String,
    pub link_addr: Option<[u8; 6]>,
}

/// Whether an entry is the link-layer entry of the named interface.
pub open spec fn is_link_entry_of(e: IfAddr, name: Seq<char>) -> bool {
    e.interface_name@ == name && e.link_addr is Some
}

/// The interface information found for `name` in the system's address
/// list: the MAC address of the first link-layer entry of that interface,
/// or `NotFound`.
pub fn select_interface_info(addrs: &Vec<IfAddr>, name: &String) -> (r: Result<InterfaceInfo, GetAddressError>)
    ensures
        r is Ok <==> exists|i: int| 0 <= i < addrs@.len() && is_link_entry_of(addrs@[i], name@),
        r matches Err(e) ==> e == GetAddressError::NotFound,
        r matches Ok(info) ==> info.name@ == name@ && info.description is None && exists|i: int|
            0 <= i < addrs@.len() && is_link_entry_of(addrs@[i], name@) && info.ethernet_address
                == addrs@[i].link_addr->Some_0 && forall|j: int|
                0 <= j < i ==> !is_link_entry_of(addrs@[j], name@),
{
    let mut i: usize = 0;
    while i < addrs.len()
        invariant
            i <= addrs@.len(),
            forall|j: int| 0 <= j < i ==> !is_link_entry_of(addrs@[j], name@),
        decreases addrs@.len() - i,
    {
        let e = &addrs[i];
        if string_eq(&e.interface_name, name) {
            match e.link_addr {
                Some(mac) => {
                    return Ok(
                        InterfaceInfo {
                            ethernet_address: mac,
                            name: name.clone(),
                            description: None,
                        },
                    );
                },
                None => {},
            }
        }
        i += 1;
    }
    Err(GetAddressError::NotFound)
}

/// Why an interface is not used.
#[derive(Debug, Clone, Copy, PartialEq, Eq, Structural)]
pub enum InterfaceError {
    /// Its link layer is not Ethernet.
    WrongDataLink(DataLink),
    /// Its MAC address could not be found.
    GetAddr(GetAddressError),
}

/// Only Ethernet interfaces are used.
pub fn check_data_link(data_link: DataLink) -> (r: Result<(), InterfaceError>)
    ensures
        data_link == DataLink::Ethernet ==> r is Ok,
        data_link != DataLink::Ethernet ==> r == Err::<(), InterfaceError>(
            InterfaceError::WrongDataLink(data_link),
        ),
{
    match data_link {
        DataLink::Ethernet => Ok(()),
        _ => Err(InterfaceError::WrongDataLink(data_link)),
    }
}

/// Takes what the system says of an interface into its description: the
/// system's description replaces the capture library's when there is one;
/// the MAC address is returned.
pub fn apply_interface_info(desc: &mut InterfaceDescription, info: Result<InterfaceInfo, GetAddressError>) -> (r: Result<[u8; 6], InterfaceError>)
    ensures
        info matches Err(e) ==> r == Err::<[u8; 6], InterfaceError>(InterfaceError::GetAddr(e))
            && final(desc).description@ == old(desc).description@,
        info matches Ok(i) ==> r == Ok::<[u8; 6], InterfaceError>(i.ethernet_address),
        info matches Ok(i) ==> final(desc).description@ == match i.description {
            Some(d) => d@,
            None => old(desc).description@,
        },
        final(desc).name@ == old(desc).name@,
{
    match info {
        Err(e) => Err(InterfaceError::GetAddr(e)),
        Ok(i) => {
            if let Some(description) = i.description {
                desc.description = description;
            }
            Ok(i.ethernet_address)
        },
    }
}

/// The opened values and the errors of a list of results, each in order.
pub fn partition_results<A, E>(v: Vec<Result<A, E>>) -> (r: (Vec<A>, Vec<E>))
    ensures
        r.0@ == v@.filter(|x: Result<A, E>| x is Ok).map_values(|x: Result<A, E>| x->Ok_0),
        r.1@ == v@.filter(|x: Result<A, E>| x is Err).map_values(|x: Result<A, E>| x->Err_0),
{
    let mut ok: Vec<A> = Vec::new();
    let mut err: Vec<E> = Vec::new();
    let mut v = v;
    let ghost all = v@;
    let ghost is_ok = |x: Result<A, E>| x is Ok;
    let ghost is_err = |x: Result<A, E>| x is Err;
    let ghost mut i: int = 0;
    while v.len() > 0
        invariant
            0 <= i <= all.len(),
            is_ok == (|x: Result<A, E>| x is Ok),
            is_err == (|x: Result<A, E>| x is Err),
            v@ == all.subrange(i, all.len() as int),
            ok@ == all.subrange(0, i).filter(is_ok).map_values(|x: Result<A, E>| x->Ok_0),
            err@ == all.subrange(0, i).filter(is_err).map_values(|x: Result<A, E>| x->Err_0),
        decreases v@.len(),
    {
        let ghost before = all.subrange(0, i);
        let x = v.remove(0);
        proof {
            let s1 = all.subrange(0, i + 1);
            assert(s1.drop_last() =~= before);
            assert(s1.last() == x);
            reveal(Seq::filter);
            assert(is_ok(x) == (x is Ok));
            assert(is_err(x) == (x is Err));
            assert(s1.len() > 0);
            assert(s1.filter(is_ok) == if is_ok(s1.last()) { s1.drop_last().filter(is_ok).push(s1.last()) } else { s1.drop_last().filter(is_ok) });
            assert(s1.filter(is_ok) == if x is Ok { before.filter(is_ok).push(x) } else { before.filter(is_ok) });
            assert(s1.filter(is_err) == if x is Err { before.filter(is_err).push(x) } else { before.filter(is_err) });
            i = i + 1;
        }
        match x {
            Ok(a) => {
                ok.push(a);
            },
            Err(e) => {
                err.push(e);
            },
        }
        proof {
            assert(v@ =~= all.subrange(i, all.len() as int));
            assert(ok@ =~= all.subrange(0, i).filter(is_ok).map_values(|x: Result<A, E>| x->Ok_0));
            assert(err@ =~= all.subrange(0, i).filter(is_err).map_values(|x: Result<A, E>| x->Err_0));
        }
    }
    assert(all.subrange(0, i) =~= all);
    (ok, err)
}

/// The interfaces to use: all opened ones, or only those with the chosen
/// name; none at all is an error.
pub fn select_interfaces(names: &Vec<String>, netif: &Option<String>) -> (r: Result<Vec<usize>, Error>)
    ensures
        r is Err <==> (netif is None && names@.len() == 0) || (netif matches Some(n) && forall|
            i: int,
        | 0 <= i < names@.len() ==> names@[i]@ != n@),
        r matches Err(e) ==> e == Error::NoInterface,
        r matches Ok(v) ==> netif is None ==> v@ == Seq::new(names@.len(), |i: int| i as usize),
        r matches Ok(v) ==> netif is Some ==> forall|k: int| 0 <= k < v@.len() ==> v@[k]
            < names@.len() && names@[v@[k] as int]@ == netif->Some_0@,
        r matches Ok(v) ==> netif is Some ==> forall|i: int|
            0 <= i < names@.len() && names@[i]@ == netif->Some_0@ ==> v@.contains(i as usize),
        r matches Ok(v) ==> netif is Some ==> forall|k: int, l: int| 0 <= k < l < v@.len() ==> v@[k] < v@[l],
{
    let mut kept: Vec<usize> = Vec::new();
    let mut i: usize = 0;
    while i < names.len()
        invariant
            i <= names@.len(),
            netif is None ==> kept@ == Seq::new(i as nat, |j: int| j as usize),
            netif is Some ==> forall|k: int| 0 <= k < kept@.len() ==> kept@[k] < i,
            netif is Some ==> forall|k: int|
                0 <= k < kept@.len() ==> names@[kept@[k] as int]@ == netif->Some_0@,
            netif is Some ==> forall|j: int|
                0 <= j < i && names@[j]@ == netif->Some_0@ ==> kept@.contains(j as usize),
            netif is Some ==> forall|k: int, l: int| 0 <= k < l < kept@.len() ==> kept@[k] < kept@[l],
        decreases names@.len() - i,
    {
        let keep = match netif {
            None => true,
            Some(n) => string_eq(&names[i], n),
        };
        let ghost old_kept = kept@;
        if keep {
            kept.push(i);
        }
        proof {
            if netif is None {
                assert(kept@ =~= Seq::new((i + 1) as nat, |j: int| j as usize));
            } else {
                if keep {
                    assert(kept@ == old_kept.push(i));
                    assert(forall|k: int| 0 <= k < old_kept.len() ==> kept@[k] == old_kept[k]);
                    assert(kept@[old_kept.len() as int] == i);
                    assert forall|j: int| 0 <= j < i + 1 && names@[j]@ == netif->Some_0@ implies kept@.contains(j as usize) by {
                        if j < i {
                            assert(old_kept.contains(j as usize));
                            let k = choose|k: int| 0 <= k < old_kept.len() && old_kept[k] == j as usize;
                            assert(kept@[k] == j as usize);
                        } else {
                            assert(kept@[old_kept.len() as int] == j as usize);
                        }
                    }
                } else {
                    assert(names@[i as int]@ != netif->Some_0@);
                }
            }
        }
        i += 1;
    }
    if kept.len() == 0 {
        proof {
            if netif is None {
                assert(names@.len() == 0);
            }
        }
        return Err(Error::NoInterface);
    }
    proof {
        if let Some(n) = netif {
            assert(kept@.len() > 0);
            let k0 = kept@[0];
            assert(names@[k0 as int]@ == n@);
        }
    }
    Ok(kept)
}

/// The capture filter for a block: `net ` followed by its network block.
pub open spec fn spec_capture_filter(net_address: Seq<u8>, prefix_len: nat) -> Seq<char> {
    "net "@ + dotted(net_address) + seq!['/'] + dec(prefix_len)
}

/// The capture filter that keeps the traffic of a block.
pub fn capture_filter(cidr: &Ipv4Cidr) -> (r: String)
    ensures
        exists|a: [u8; 4]| ipv4_number(a@) == cidr_network_spec(cidr@.0, cidr@.1)
            && r@ == spec_capture_filter(a@, cidr@.1),
{
    let network = cidr.network();
    let address = network.address();
    let mut s = String::from_str("net ");
    push_dotted(&mut s, address);
    push_char(&mut s, '/');
    push_decimal(&mut s, network.prefix_len() as u64);
    assert(s@ == spec_capture_filter(address@, cidr@.1));
    s
}

/// The capture libraries and their versions.
#[derive(Debug, Clone)]
pub enum LibraryVersion {
    PCap(String),
    WPCap(String),
    PFRing(String),
}

impl LibraryVersion {
    /// The library's name and version, as in `pcap 1.9.1`.
    pub fn describe(&self) -> (r: String)
        ensures
            r@ == match self {
                LibraryVersion::PCap(v) => "pcap "@ + v@,
                LibraryVersion::WPCap(v) => "wpcap "@ + v@,
                LibraryVersion::PFRing(v) => "pfring "@ + v@,
            },
    {
        match self {
            LibraryVersion::PCap(v) => {
                let mut s = String::from_str("pcap ");
                push_str(&mut s, v.as_str());
                s
            },
            LibraryVersion::WPCap(v) => {
                let mut s = String::from_str("wpcap ");
                push_str(&mut s, v.as_str());
                s
            },
            LibraryVersion::PFRing(v) => {
                let mut s = String::from_str("pfring ");
                push_str(&mut s, v.as_str());
                s
            },
        }
    }
}

/// Buffer sizes of the TCP sockets of the gateway's network stack.
#[derive(Debug, Clone, Copy)]
pub struct BufferSize {
    pub tcp_rx_size: usize,
    pub tcp_tx_size: usize,
}

} // verus!

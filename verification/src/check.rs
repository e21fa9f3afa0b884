//! The proxy check: the HTTP request it sends through the proxy and how it
//! judges the answer, and how many pings it sends.
use crate::text::push_str;
use vstd::prelude::*;
use vstd::utf8::{encode_utf8, is_char_boundary};

verus! {

/// The HTTP/1.0 request for the root page of a host.
pub open spec fn spec_http_request(domain: Seq<char>) -> Seq<char> {
    "GET / HTTP/1.0\r\nHost: "@ + domain + "\r\n\r\n"@
}

/// The HTTP/1.0 request for the root page of a host.
pub fn http_request(domain: &str) -> (r: String)
    ensures
        r@ == spec_http_request(domain@),
{
    let mut s = String::from_str("GET / HTTP/1.0\r\nHost: ");
    push_str(&mut s, domain);
    push_str(&mut s, "\r\n\r\n");
    s
}

/// The status line of a successful answer.
pub open spec fn success_line() -> Seq<u8> {
    seq![
        0x48u8, 0x54u8, 0x54u8, 0x50u8, 0x2fu8, 0x31u8, 0x2eu8, 0x30u8, 0x20u8, 0x32u8, 0x30u8,
        0x30u8, 0x20u8, 0x4fu8, 0x4bu8, 0x0du8, 0x0au8,
    ]
}

/// Whether an answer starts with `HTTP/1.0 200 OK\r\n`.  The answer must
/// have at least that many bytes and a character boundary after them (its
/// prefix is cut there).
pub fn is_http_ok(ret: &str) -> (r: bool)
    requires
        encode_utf8(ret@).len() >= 17,
        is_char_boundary(encode_utf8(ret@), 17),
    ensures
        r == (encode_utf8(ret@).subrange(0, 17) == success_line()),
{
    let bytes = ret.as_bytes();
    let expected: [u8; 17] = [
        0x48, 0x54, 0x54, 0x50, 0x2f, 0x31, 0x2e, 0x30, 0x20, 0x32, 0x30, 0x30, 0x20, 0x4f, 0x4b,
        0x0d, 0x0a,
    ];
    assert(expected@ =~= success_line());
    let mut i: usize = 0;
    while i < 17
        invariant
            i <= 17,
            bytes@.len() >= 17,
            bytes@ == encode_utf8(ret@),
            expected@ == success_line(),
            forall|j: int| 0 <= j < i ==> bytes@[j] == expected@[j],
        decreases 17 - i,
    {
        if bytes[i] != expected[i] {
            assert(bytes@.subrange(0, 17)[i as int] != success_line()[i as int]);
            return false;
        }
        i += 1;
    }
    assert(bytes@.subrange(0, 17) =~= success_line());
    true
}

/// How many pings are sent: the number asked for, or four.
pub fn ping_count(times: Option<u64>) -> (r: u64)
    ensures
        r == match times {
            Some(t) => t,
            None => 4,
        },
{
    match times {
        Some(t) => t,
        None => 4,
    }
}

/// Whether to wait a second after ping number `i` (counted from 0): after
/// every ping but the last.
pub fn wait_after_ping(i: u64, times: u64) -> (r: bool)
    requires
        i < times,
    ensures
        r == (i + 1 != times),
{
    i + 1 != times
}

} // verus!

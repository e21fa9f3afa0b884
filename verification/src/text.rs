//! Small text helpers: decimal numbers, dotted IPv4 addresses, string
//! comparison and concatenation.
use vstd::prelude::*;

verus! {

/// The character of a decimal digit.
pub open spec fn digit_char(d: nat) -> char {
    (48 + d) as char
}

/// The decimal representation of a number, without leading zeros.
pub open spec fn dec(n: nat) -> Seq<char>
    decreases n,
{
    if n < 10 {
        seq![digit_char(n)]
    } else {
        dec(n / 10).push(digit_char(n % 10))
    }
}

/// Appends a character with `String::push`.
#[verifier::external_body]
pub(crate) fn push_char(s: &mut String, c: char)
    ensures
        final(s)@ == old(s)@.push(c),
{
    s.push(c);
}

/// The character of a decimal digit.
fn digit(d: u64) -> (c: char)
    requires
        d < 10,
    ensures
        c == digit_char(d as nat),
{
    if d == 0 {
        '0'
    } else if d == 1 {
        '1'
    } else if d == 2 {
        '2'
    } else if d == 3 {
        '3'
    } else if d == 4 {
        '4'
    } else if d == 5 {
        '5'
    } else if d == 6 {
        '6'
    } else if d == 7 {
        '7'
    } else if d == 8 {
        '8'
    } else {
        '9'
    }
}

/// Appends the decimal representation of `n`.
pub fn push_decimal(s: &mut String, n: u64)
    ensures
        final(s)@ == old(s)@ + dec(n as nat),
    decreases n,
{
    if n >= 10 {
        push_decimal(s, n / 10);
    }
    let c = digit(n % 10);
    push_char(s, c);
    proof {
        if n >= 10 {
            assert(final(s)@ =~= old(s)@ + dec(n as nat));
        } else {
            assert(final(s)@ =~= old(s)@ + dec(n as nat));
        }
    }
}

/// Appends a string slice.
pub fn push_str(s: &mut String, t: &str)
    ensures
        final(s)@ == old(s)@ + t@,
{
    s.append(t);
}

/// The dotted decimal form of an IPv4 address.
pub open spec fn dotted(a: Seq<u8>) -> Seq<char> {
    dec(a[0] as nat) + seq!['.'] + dec(a[1] as nat) + seq!['.'] + dec(a[2] as nat) + seq!['.']
        + dec(a[3] as nat)
}

/// Appends the dotted decimal form of an IPv4 address.
pub fn push_dotted(s: &mut String, a: [u8; 4])
    ensures
        final(s)@ == old(s)@ + dotted(a@),
{
    let ghost s0 = s@;
    push_decimal(s, a[0] as u64);
    push_char(s, '.');
    push_decimal(s, a[1] as u64);
    push_char(s, '.');
    push_decimal(s, a[2] as u64);
    push_char(s, '.');
    push_decimal(s, a[3] as u64);
    assert(s@ =~= s0 + dotted(a@));
}

/// Whether two strings are equal.
pub fn string_eq(a: &String, b: &String) -> (r: bool)
    ensures
        r == (a@ == b@),
{
    *a == *b
}

} // verus!

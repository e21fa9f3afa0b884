//! The DNS lookup used to check a proxy: the query for the A records of a
//! domain, and the IPv4 addresses of an answer.
use dns_parser::{
    Builder as DnsBuilder, Error as DnsParseError, Packet, QueryClass as DnsClass, QueryType as DnsType, RData,
};
use vstd::prelude::*;
use vstd::utf8::encode_utf8;

verus! {

#[verifier::external_type_specification]
#[verifier::external_body]
pub struct ExDnsBuilder(DnsBuilder);

#[verifier::external_type_specification]
#[verifier::external_body]
pub struct ExDnsError(DnsParseError);

/// The bytes a DNS packet builder holds so far.
pub uninterp spec fn builder_bytes(b: DnsBuilder) -> Seq<u8>;

/// The kinds of question this library asks.
#[derive(Debug, Clone, Copy, PartialEq, Eq, Structural)]
pub enum QueryType {
    /// IPv4 host addresses (type 1).
    A,
}

/// The classes of question this library asks.
#[derive(Debug, Clone, Copy, PartialEq, Eq, Structural)]
pub enum QueryClass {
    /// The Internet (class 1).
    IN,
}

/// The 12-byte header of a new standard query with the given identifier,
/// recursion desired or not, and empty sections.
pub open spec fn query_header(id: u16, recursion: bool) -> Seq<u8> {
    seq![
        (id / 256) as u8,
        (id % 256) as u8,
        if recursion { 1u8 } else { 0u8 },
        0u8,
        0u8,
        0u8,
        0u8,
        0u8,
        0u8,
        0u8,
        0u8,
        0u8,
    ]
}

/// The position of the first `.` in `b`, or -1.
pub open spec fn first_dot(b: Seq<u8>) -> int
    decreases b.len(),
{
    if b.len() == 0 {
        -1
    } else if b[0] == 0x2e {
        0
    } else if first_dot(b.subrange(1, b.len() as int)) == -1 {
        -1
    } else {
        first_dot(b.subrange(1, b.len() as int)) + 1
    }
}

/// The wire form of a domain name: each `.`-separated label prefixed by
/// its length, then a zero byte.
pub open spec fn qname_wire(b: Seq<u8>) -> Seq<u8>
    decreases b.len(),
{
    let i = first_dot(b);
    if i == -1 {
        seq![b.len() as u8] + b + seq![0u8]
    } else if 0 <= i < b.len() {
        seq![i as u8] + b.subrange(0, i) + qname_wire(b.subrange(i + 1, b.len() as int))
    } else {
        Seq::empty()
    }
}

/// Every `.`-separated label of the name is shorter than 63 bytes (the
/// builder panics otherwise).
pub open spec fn labels_short(b: Seq<u8>) -> bool
    decreases b.len(),
{
    let i = first_dot(b);
    if i == -1 {
        b.len() < 63
    } else if 0 <= i < b.len() {
        i < 63 && labels_short(b.subrange(i + 1, b.len() as int))
    } else {
        false
    }
}

/// Starts a query with `dns_parser::Builder::new_query`: the builder holds
/// the 12-byte header.
#[verifier::external_body]
pub(crate) fn builder_new_query(id: u16, recursion: bool) -> (r: DnsBuilder)
    ensures
        builder_bytes(r) == query_header(id, recursion),
{
    DnsBuilder::new_query(id, recursion)
}

/// Adds a question with `dns_parser::Builder::add_question`: the name in
/// wire form, the type and the class (top bit set to prefer a unicast
/// answer) are appended and the question count (bytes 4..6) goes up by
/// one.  The builder panics when an answer section was started, when the
/// count is full or when a label is too long; those inputs are refused.
#[verifier::external_body]
pub(crate) fn builder_add_question(b: &mut DnsBuilder, qname: &str, prefer_unicast: bool, qtype: QueryType, qclass: QueryClass)
    requires
        builder_bytes(*old(b)).len() >= 12,
        builder_bytes(*old(b)).subrange(6, 12) == seq![0u8, 0u8, 0u8, 0u8, 0u8, 0u8],
        builder_bytes(*old(b))[4] as int * 256 + builder_bytes(*old(b))[5] < 65535,
        labels_short(encode_utf8(qname@)),
    ensures
        ({
            let old_bytes = builder_bytes(*old(b));
            let count = old_bytes[4] as int * 256 + old_bytes[5] + 1;
            builder_bytes(*final(b)) == old_bytes.update(4, (count / 256) as u8).update(
                5,
                (count % 256) as u8,
            ) + qname_wire(encode_utf8(qname@)) + seq![
                0u8,
                1u8,
                if prefer_unicast { 0x80u8 } else { 0u8 },
                1u8,
            ]
        }),
{
    let t = match qtype {
        QueryType::A => DnsType::A,
    };
    let c = match qclass {
        QueryClass::IN => DnsClass::IN,
    };
    b.add_question(qname, prefer_unicast, t, c);
}

/// Finishes a packet with `dns_parser::Builder::build`: the bytes held,
/// when they fit in 512 bytes; otherwise `Err` with the same length.
#[verifier::external_body]
pub(crate) fn builder_build(b: DnsBuilder) -> (r: Result<Vec<u8>, Vec<u8>>)
    ensures
        r is Ok <==> builder_bytes(b).len() <= 512,
        r matches Ok(v) ==> v@ == builder_bytes(b),
        r matches Err(v) ==> v@.len() == builder_bytes(b).len(),
{
    b.build()
}

/// Why a lookup failed.
#[derive(Debug)]
pub enum ResolveError {
    /// The query did not fit in 512 bytes.
    BuildQuery,
    /// The answer could not be parsed.
    ParseResponse(DnsParseError),
}

impl ResolveError {
    /// The text of the error.
    pub fn message(&self) -> (r: &'static str)
        ensures
            *self is BuildQuery ==> r@ == "Failed to build dns query"@,
            *self is ParseResponse ==> r@ == "Failed to parse dns response"@,
    {
        match self {
            ResolveError::BuildQuery => "Failed to build dns query",
            ResolveError::ParseResponse(_) => "Failed to parse dns response",
        }
    }
}

/// The query for the A records of a domain: identifier 1, recursion
/// desired, one question of type A and class IN.
pub open spec fn spec_a_query(domain: Seq<u8>) -> Seq<u8> {
    query_header(1, true).update(5, 1u8) + qname_wire(domain) + seq![0u8, 1u8, 0u8, 1u8]
}

/// Builds the query for the A records of a domain; a query longer than
/// 512 bytes is refused.
pub fn a_query(domain: &str) -> (r: Result<Vec<u8>, ResolveError>)
    requires
        labels_short(encode_utf8(domain@)),
    ensures
        r is Ok <==> spec_a_query(encode_utf8(domain@)).len() <= 512,
        r matches Ok(v) ==> v@ == spec_a_query(encode_utf8(domain@)),
        r matches Err(e) ==> e is BuildQuery,
{
    let mut builder = builder_new_query(1, true);
    proof {
        assert(builder_bytes(builder).subrange(6, 12) =~= seq![0u8, 0u8, 0u8, 0u8, 0u8, 0u8]);
    }
    builder_add_question(&mut builder, domain, false, QueryType::A, QueryClass::IN);
    proof {
        assert(query_header(1, true).update(4, 0u8).update(5, 1u8) =~= query_header(1, true).update(
            5,
            1u8,
        ));
    }
    match builder_build(builder) {
        Ok(p) => Ok(p),
        Err(_) => Err(ResolveError::BuildQuery),
    }
}

/// The kind of data of an answer record, with the address of an A record.
#[derive(Debug, Clone, Copy, PartialEq, Eq, Structural)]
pub enum AnswerData {
    A(u32),
    Aaaa,
    Cname,
    Mx,
    Ns,
    Ptr,
    Soa,
    Srv,
    Txt,
    Unknown,
}

/// The answer records `dns_parser::Packet::parse` finds in a packet, in
/// order, or `None` when it refuses the packet.
pub uninterp spec fn parsed_answers(packet: Seq<u8>) -> Option<Seq<AnswerData>>;

/// Parses a DNS packet with `dns_parser::Packet::parse` and lists the data
/// of its answer records.
#[verifier::external_body]
pub(crate) fn packet_answers(packet: &[u8]) -> (r: Result<Vec<AnswerData>, DnsParseError>)
    ensures
        r is Ok <==> parsed_answers(packet@) is Some,
        r matches Ok(v) ==> v@ == parsed_answers(packet@).unwrap(),
{
    Packet::parse(packet).map(|p| p.answers.iter().map(|a| match &a.data {
        RData::A(x) => AnswerData::A(u32::from(x.0)),
        RData::AAAA(_) => AnswerData::Aaaa,
        RData::CNAME(_) => AnswerData::Cname,
        RData::MX(_) => AnswerData::Mx,
        RData::NS(_) => AnswerData::Ns,
        RData::PTR(_) => AnswerData::Ptr,
        RData::SOA(_) => AnswerData::Soa,
        RData::SRV(_) => AnswerData::Srv,
        RData::TXT(_) => AnswerData::Txt,
        RData::Unknown(_) => AnswerData::Unknown,
    }).collect())
}

/// The IPv4 addresses (as numbers) of the A records among some answers,
/// in order.
pub open spec fn a_addresses(answers: Seq<AnswerData>) -> Seq<u32>
    decreases answers.len(),
{
    if answers.len() == 0 {
        Seq::empty()
    } else {
        let rest = a_addresses(answers.drop_last());
        match answers.last() {
            AnswerData::A(ip) => rest.push(ip),
            _ => rest,
        }
    }
}

/// The IPv4 addresses the A records of a DNS answer give, in order.
pub fn answer_addresses(packet: &[u8]) -> (r: Result<Vec<u32>, ResolveError>)
    ensures
        r is Ok <==> parsed_answers(packet@) is Some,
        r matches Ok(v) ==> v@ == a_addresses(parsed_answers(packet@).unwrap()),
        r matches Err(e) ==> e is ParseResponse,
{
    let answers = match packet_answers(packet) {
        Ok(a) => a,
        Err(e) => {
            return Err(ResolveError::ParseResponse(e));
        },
    };
    let mut out: Vec<u32> = Vec::new();
    let mut i: usize = 0;
    while i < answers.len()
        invariant
            i <= answers@.len(),
            out@ == a_addresses(answers@.subrange(0, i as int)),
        decreases answers@.len() - i,
    {
        proof {
            let s = answers@.subrange(0, i + 1);
            assert(s.drop_last() =~= answers@.subrange(0, i as int));
        }
        match answers[i] {
            AnswerData::A(ip) => {
                out.push(ip);
            },
            _ => {},
        }
        i += 1;
    }
    assert(answers@.subrange(0, answers@.len() as int) =~= answers@);
    Ok(out)
}

/// Listing the A-record addresses distributes over joined answer lists: the
/// addresses of `s` followed by `t` are those of `s` followed by those of
/// `t`, whatever the records are.
pub proof fn lemma_a_addresses_append(s: Seq<AnswerData>, t: Seq<AnswerData>)
    ensures
        a_addresses(s + t) == a_addresses(s) + a_addresses(t),
    decreases t.len(),
{
    if t.len() == 0 {
        assert(s + t =~= s);
        assert(a_addresses(s) + a_addresses(t) =~= a_addresses(s));
    } else {
        lemma_a_addresses_append(s, t.drop_last());
        assert((s + t).drop_last() =~= s + t.drop_last());
        assert((s + t).last() == t.last());
        match t.last() {
            AnswerData::A(ip) => {
                assert(a_addresses(s) + a_addresses(t.drop_last()).push(ip) =~= (a_addresses(s)
                    + a_addresses(t.drop_last())).push(ip));
            },
            _ => {},
        }
    }
}

/// A single A record gives its address; a single record of any other
/// kind gives none.
pub proof fn lemma_a_addresses_single(x: AnswerData)
    ensures
        x matches AnswerData::A(ip) ==> a_addresses(seq![x]) == seq![ip],
        !(x is A) ==> a_addresses(seq![x]) == Seq::<u32>::empty(),
{
    assert(seq![x].drop_last() =~= Seq::<AnswerData>::empty());
    assert(seq![x].last() == x);
    reveal_with_fuel(a_addresses, 2);
}

/// Every A record of an answer list gives its address, in order, whatever
/// records stand before or after it: an A record placed after any records
/// `s` and before any records `t` adds exactly its address between theirs.
pub proof fn lemma_a_record_kept(s: Seq<AnswerData>, ip: u32, t: Seq<AnswerData>)
    ensures
        a_addresses(s + seq![AnswerData::A(ip)] + t) == a_addresses(s) + seq![ip] + a_addresses(t),
{
    lemma_a_addresses_append(s + seq![AnswerData::A(ip)], t);
    lemma_a_addresses_append(s, seq![AnswerData::A(ip)]);
    lemma_a_addresses_single(AnswerData::A(ip));
}

} // verus!

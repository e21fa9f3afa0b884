//! The relay ("forwarder") wire protocol spoken with the relay server.
//!
//! A forwarder frame is one type byte followed by a body whose meaning
//! depends on the type.  Parsing checks the overall length bounds of the
//! frame and of its body; building emits the type byte.
use vstd::prelude::*;

verus! {

/// Type byte of a keepalive frame.
pub const KEEPALIVE: u8 = 0;
/// Type byte of a frame carrying a whole IPv4 packet.
pub const IPV4: u8 = 1;
/// Type byte of a ping frame.
pub const PING: u8 = 2;
/// Type byte of a frame carrying an IPv4 fragment.
pub const IPV4_FRAG: u8 = 3;
/// Type byte of an authentication request.
pub const AUTH_ME: u8 = 4;
/// Type byte of an information frame.
pub const INFO: u8 = 0x10;

/// The only way a frame can fail to parse.
#[derive(Debug, Clone, Copy, PartialEq, Eq, Structural)]
pub enum ParseError {
    NotParseable,
}

/// A type that can be read from a byte slice, borrowing from it.
///
/// `parse` checks `MIN_LENGTH <= len <= MAX_LENGTH` and then hands the
/// bytes to `do_parse`, whose result is described by `spec_do_parse`.
pub trait Parser<'a>: Sized + View {
    const MIN_LENGTH: usize;
    const MAX_LENGTH: usize = 2048;

    /// What `do_parse` gives back for bytes within the length bounds:
    /// `None` for a rejection, `Some(view)` for the parsed value.
    spec fn spec_do_parse(bytes: Seq<u8>) -> Option<Self::V>;

    fn do_parse(bytes: &'a [u8]) -> (r: Result<Self, ParseError>)
        requires
            Self::MIN_LENGTH <= bytes@.len() <= Self::MAX_LENGTH,
        ensures
            r is Ok <==> Self::spec_do_parse(bytes@) is Some,
            r matches Ok(v) ==> v@ == Self::spec_do_parse(bytes@).unwrap(),
    ;

    fn parse(bytes: &'a [u8]) -> (r: Result<Self, ParseError>)
        ensures
            r is Ok <==> (Self::MIN_LENGTH <= bytes@.len() <= Self::MAX_LENGTH
                && Self::spec_do_parse(bytes@) is Some),
            r matches Ok(v) ==> v@ == Self::spec_do_parse(bytes@).unwrap(),
    {
        if bytes.len() < Self::MIN_LENGTH || bytes.len() > Self::MAX_LENGTH {
            Err(ParseError::NotParseable)
        } else {
            Self::do_parse(bytes)
        }
    }
}

/// A value that can be turned into bytes for the relay server.
pub trait Builder: Sized + View {
    /// The bytes `build` produces for a value with the given view.
    spec fn spec_build(v: Self::V) -> Seq<u8>;

    fn build(self) -> (r: Vec<u8>)
        ensures
            r@ == Self::spec_build(self@),
    ;
}

/// A frame exchanged with the relay server.
#[derive(Debug)]
pub enum ForwarderFrame<'a> {
    Keepalive,
    Ipv4(Ipv4<'a>),
    Ping(Ping<'a>),
    Ipv4Frag(Ipv4Frag<'a>),
    AuthMe,
    Info,
}

/// The mathematical content of a forwarder frame: its kind and body bytes.
pub ghost enum FrameView {
    Keepalive,
    Ipv4(Seq<u8>),
    Ping(Seq<u8>),
    Ipv4Frag(Seq<u8>),
    AuthMe,
    Info,
}

/// A whole IPv4 packet carried by the relay.
#[derive(Debug)]
pub struct Ipv4<'a> {
    payload: &'a [u8],
}

/// A ping body (exactly four bytes).
#[derive(Debug)]
pub struct Ping<'a> {
    payload: &'a [u8],
}

/// An IPv4 fragment body.
#[derive(Debug)]
pub struct Ipv4Frag<'a> {
    payload: &'a [u8],
}

impl<'a> View for Ipv4<'a> {
    type V = Seq<u8>;

    closed spec fn view(&self) -> Seq<u8> {
        self.payload@
    }
}

impl<'a> View for Ping<'a> {
    type V = Seq<u8>;

    closed spec fn view(&self) -> Seq<u8> {
        self.payload@
    }
}

impl<'a> View for Ipv4Frag<'a> {
    type V = Seq<u8>;

    closed spec fn view(&self) -> Seq<u8> {
        self.payload@
    }
}

impl<'a> View for ForwarderFrame<'a> {
    type V = FrameView;

    open spec fn view(&self) -> FrameView {
        match self {
            ForwarderFrame::Keepalive => FrameView::Keepalive,
            ForwarderFrame::Ipv4(p) => FrameView::Ipv4(p@),
            ForwarderFrame::Ping(p) => FrameView::Ping(p@),
            ForwarderFrame::Ipv4Frag(p) => FrameView::Ipv4Frag(p@),
            ForwarderFrame::AuthMe => FrameView::AuthMe,
            ForwarderFrame::Info => FrameView::Info,
        }
    }
}

impl<'a> Ipv4<'a> {
    pub fn new(payload: &'a [u8]) -> (r: Ipv4<'a>)
        ensures
            r@ == payload@,
    {
        Ipv4 { payload }
    }

    pub fn payload(&self) -> (r: &[u8])
        ensures
            r@ == self@,
    {
        self.payload
    }
}

/// Whether `len` lies within the bounds `[min, max]`.
pub open spec fn within(len: nat, min: nat, max: nat) -> bool {
    min <= len <= max
}

impl<'a> Parser<'a> for Ipv4<'a> {
    const MIN_LENGTH: usize = 20;

    open spec fn spec_do_parse(bytes: Seq<u8>) -> Option<Seq<u8>> {
        Some(bytes)
    }

    fn do_parse(bytes: &'a [u8]) -> (r: Result<Ipv4<'a>, ParseError>) {
        Ok(Ipv4 { payload: bytes })
    }
}

impl<'a> Parser<'a> for Ping<'a> {
    const MIN_LENGTH: usize = 4;
    const MAX_LENGTH: usize = 4;

    open spec fn spec_do_parse(bytes: Seq<u8>) -> Option<Seq<u8>> {
        Some(bytes)
    }

    fn do_parse(bytes: &'a [u8]) -> (r: Result<Ping<'a>, ParseError>) {
        Ok(Ping { payload: bytes })
    }
}

impl<'a> Parser<'a> for Ipv4Frag<'a> {
    const MIN_LENGTH: usize = 16;

    open spec fn spec_do_parse(bytes: Seq<u8>) -> Option<Seq<u8>> {
        Some(bytes)
    }

    fn do_parse(bytes: &'a [u8]) -> (r: Result<Ipv4Frag<'a>, ParseError>) {
        Ok(Ipv4Frag { payload: bytes })
    }
}

/// The body of a frame: everything after the type byte.
pub open spec fn frame_body(bytes: Seq<u8>) -> Seq<u8> {
    bytes.subrange(1, bytes.len() as int)
}

/// What a frame whose type byte and body are given parses to, once the
/// frame as a whole is within its length bounds.
pub open spec fn spec_frame_of(typ: u8, body: Seq<u8>) -> Option<FrameView> {
    if typ == KEEPALIVE {
        Some(FrameView::Keepalive)
    } else if typ == IPV4 {
        if within(body.len(), 20, 2048) {
            Some(FrameView::Ipv4(body))
        } else {
            None
        }
    } else if typ == PING {
        if body.len() == 4 {
            Some(FrameView::Ping(body))
        } else {
            None
        }
    } else if typ == IPV4_FRAG {
        if within(body.len(), 16, 2048) {
            Some(FrameView::Ipv4Frag(body))
        } else {
            None
        }
    } else if typ == AUTH_ME {
        Some(FrameView::AuthMe)
    } else if typ == INFO {
        Some(FrameView::Info)
    } else {
        None
    }
}

/// The type byte of a frame of the given kind.
pub open spec fn frame_type(f: FrameView) -> u8 {
    match f {
        FrameView::Keepalive => KEEPALIVE,
        FrameView::Ipv4(_) => IPV4,
        FrameView::Ping(_) => PING,
        FrameView::Ipv4Frag(_) => IPV4_FRAG,
        FrameView::AuthMe => AUTH_ME,
        FrameView::Info => INFO,
    }
}

/// What `ForwarderFrame::parse` gives back for the given bytes.
pub open spec fn spec_parse_frame(bytes: Seq<u8>) -> Option<FrameView> {
    if within(bytes.len(), 1, 2048) {
        spec_frame_of(bytes[0], frame_body(bytes))
    } else {
        None
    }
}

impl<'a> Parser<'a> for ForwarderFrame<'a> {
    const MIN_LENGTH: usize = 1;

    open spec fn spec_do_parse(bytes: Seq<u8>) -> Option<FrameView> {
        spec_frame_of(bytes[0], frame_body(bytes))
    }

    fn do_parse(bytes: &'a [u8]) -> (r: Result<ForwarderFrame<'a>, ParseError>) {
        let typ = bytes[0];
        let rest = &bytes[1..bytes.len()];
        assert(rest@ == frame_body(bytes@));
        if typ == KEEPALIVE {
            Ok(ForwarderFrame::Keepalive)
        } else if typ == IPV4 {
            match Ipv4::parse(rest) {
                Ok(p) => Ok(ForwarderFrame::Ipv4(p)),
                Err(e) => Err(e),
            }
        } else if typ == PING {
            match Ping::parse(rest) {
                Ok(p) => Ok(ForwarderFrame::Ping(p)),
                Err(e) => Err(e),
            }
        } else if typ == IPV4_FRAG {
            match Ipv4Frag::parse(rest) {
                Ok(p) => Ok(ForwarderFrame::Ipv4Frag(p)),
                Err(e) => Err(e),
            }
        } else if typ == AUTH_ME {
            Ok(ForwarderFrame::AuthMe)
        } else if typ == INFO {
            Ok(ForwarderFrame::Info)
        } else {
            Err(ParseError::NotParseable)
        }
    }
}

impl<'a> Builder for ForwarderFrame<'a> {
    /// Only the type byte is emitted; the body of a frame is not written.
    open spec fn spec_build(v: FrameView) -> Seq<u8> {
        seq![frame_type(v)]
    }

    fn build(self) -> (r: Vec<u8>) {
        let typ = match self {
            ForwarderFrame::Keepalive => KEEPALIVE,
            ForwarderFrame::Ipv4(_ipv4) => IPV4,
            ForwarderFrame::Ping(_ping) => PING,
            ForwarderFrame::Ipv4Frag(_ipv4) => IPV4_FRAG,
            ForwarderFrame::AuthMe => AUTH_ME,
            ForwarderFrame::Info => INFO,
        };
        let mut r: Vec<u8> = Vec::new();
        r.push(typ);
        r
    }
}

/// The length bounds and body rule of `ForwarderFrame`'s parser together
/// make up `spec_parse_frame`.
pub proof fn lemma_forwarder_parse_spec(bytes: Seq<u8>)
    ensures
        (ForwarderFrame::MIN_LENGTH <= bytes.len() <= ForwarderFrame::MAX_LENGTH
            && ForwarderFrame::spec_do_parse(bytes) is Some) <==> spec_parse_frame(bytes) is Some,
        spec_parse_frame(bytes) is Some ==> ForwarderFrame::spec_do_parse(bytes) == spec_parse_frame(
            bytes,
        ),
{
}

/// Whether a frame kind carries no body.
pub open spec fn is_bodiless(f: FrameView) -> bool {
    match f {
        FrameView::Keepalive | FrameView::AuthMe | FrameView::Info => true,
        _ => false,
    }
}

/// Parsing accepts exactly the frames whose overall length is between 1
/// and 2048 bytes, whose type byte is known, and whose body meets the
/// length bounds of its kind; the parsed frame is determined by the
/// type byte and carries the body unchanged.
pub proof fn lemma_parse_frame_accepts(bytes: Seq<u8>)
    ensures
        spec_parse_frame(bytes) is Some ==> {
            &&& 1 <= bytes.len() <= 2048
            &&& frame_type(spec_parse_frame(bytes).unwrap()) == bytes[0]
            &&& !is_bodiless(spec_parse_frame(bytes).unwrap()) ==> match spec_parse_frame(bytes).unwrap() {
                FrameView::Ipv4(b) => b == frame_body(bytes),
                FrameView::Ping(b) => b == frame_body(bytes),
                FrameView::Ipv4Frag(b) => b == frame_body(bytes),
                _ => true,
            }
        },
        bytes.len() == 0 || bytes.len() > 2048 ==> spec_parse_frame(bytes) is None,
{
}

/// Building a parsed frame gives back its first byte, the type byte.
pub proof fn lemma_build_after_parse(bytes: Seq<u8>)
    requires
        spec_parse_frame(bytes) is Some,
    ensures
        ForwarderFrame::spec_build(spec_parse_frame(bytes).unwrap()) == bytes.subrange(0, 1),
{
    assert(ForwarderFrame::spec_build(spec_parse_frame(bytes).unwrap()) =~= bytes.subrange(0, 1));
}

/// A frame without a body survives building and parsing again; a frame
/// with a body does not, since building writes its type byte alone and
/// every kind with a body needs at least four body bytes.
pub proof fn lemma_parse_after_build(f: FrameView)
    ensures
        is_bodiless(f) ==> spec_parse_frame(ForwarderFrame::spec_build(f)) == Some(f),
        !is_bodiless(f) ==> spec_parse_frame(ForwarderFrame::spec_build(f)) is None,
{
    let b = ForwarderFrame::spec_build(f);
    assert(frame_body(b) =~= Seq::<u8>::empty());
}

} // verus!

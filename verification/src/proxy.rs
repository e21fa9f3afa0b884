//! Proxy settings: which proxy a proxy URL selects, the SOCKS5 server
//! address and credentials it names, and how a shadowsocks URL is read.
use crate::text::{dec, push_char, push_decimal, push_str, string_eq};
use std::str::Utf8Error;
use url::ParseError as UrlParseError;
use vstd::prelude::*;
use vstd::utf8::{decode_utf8, encode_utf8, valid_utf8};

verus! {

#[verifier::external_type_specification]
#[verifier::external_body]
pub struct ExDecodeError(base64::DecodeError);

#[verifier::external_type_specification]
#[verifier::external_body]
pub struct ExUtf8Error(Utf8Error);

#[verifier::external_type_specification]
#[verifier::external_body]
pub struct ExUrlParseError(UrlParseError);

/// Credentials for a SOCKS5 server.
#[derive(Debug)]
pub struct Auth {
    pub username: String,
    pub password: String,
}

/// What the proxy logic reads of a proxy URL.
#[derive(Debug)]
pub struct ProxyUrl {
    pub scheme: String,
    pub has_authority: bool,
    pub username: String,
    pub password: Option<String>,
    pub host: Option<String>,
    /// The port written in the URL.
    pub port: Option<u16>,
    /// The port written in the URL, or the scheme's default port.
    pub port_or_known_default: Option<u16>,
}

/// The mathematical content of a proxy URL: the views of its fields.
pub ghost struct UrlView {
    pub scheme: Seq<char>,
    pub has_authority: bool,
    pub username: Seq<char>,
    pub password: Option<Seq<char>>,
    pub host: Option<Seq<char>>,
    pub port: Option<u16>,
    pub port_or_known_default: Option<u16>,
}

/// The view of an optional string.
pub open spec fn opt_view(s: Option<String>) -> Option<Seq<char>> {
    match s {
        Some(t) => Some(t@),
        None => None,
    }
}

impl View for ProxyUrl {
    type V = UrlView;

    open spec fn view(&self) -> UrlView {
        UrlView {
            scheme: self.scheme@,
            has_authority: self.has_authority,
            username: self.username@,
            password: opt_view(self.password),
            host: opt_view(self.host),
            port: self.port,
            port_or_known_default: self.port_or_known_default,
        }
    }
}

/// The credentials a URL carries: the user name and the password (empty
/// when absent), when the URL has an authority part.
pub open spec fn spec_auth(url: ProxyUrl) -> Option<(Seq<char>, Seq<char>)> {
    if url.has_authority {
        Some(
            (
                url.username@,
                match url.password {
                    Some(p) => p@,
                    None => Seq::empty(),
                },
            ),
        )
    } else {
        None
    }
}

/// The view of optional credentials.
pub open spec fn auth_view(a: Option<Auth>) -> Option<(Seq<char>, Seq<char>)> {
    match a {
        Some(x) => Some((x.username@, x.password@)),
        None => None,
    }
}

/// Whether a URL names a SOCKS5 server: scheme `socks5` with a host and a
/// port.
pub open spec fn names_socks5_server(url: ProxyUrl) -> bool {
    url.scheme@ == "socks5"@ && url.host is Some && url.port_or_known_default is Some
}

/// The `host:port` address of a SOCKS5 URL.
pub open spec fn socks5_addr(url: ProxyUrl) -> Seq<char> {
    url.host->Some_0@ + seq![':'] + dec(url.port_or_known_default->Some_0 as nat)
}

fn literal(s: &str) -> (r: String)
    ensures
        r@ == s@,
{
    String::from_str(s)
}

fn copy_string(s: &String) -> (r: String)
    ensures
        r@ == s@,
{
    s.clone()
}

/// The SOCKS5 server address (`host:port`) and the credentials of a proxy
/// URL; `None` unless the URL names a SOCKS5 server.
pub fn url_into_addr_auth(url: &ProxyUrl) -> (r: Option<(String, Option<Auth>)>)
    ensures
        r is Some <==> names_socks5_server(*url),
        r matches Some(x) ==> x.0@ == socks5_addr(*url) && auth_view(x.1) == spec_auth(*url),
{
    let auth: Option<Auth> = if url.has_authority {
        let password = match &url.password {
            Some(p) => copy_string(p),
            None => String::new(),
        };
        Some(Auth { username: copy_string(&url.username), password })
    } else {
        None
    };
    let socks5 = literal("socks5");
    if string_eq(&url.scheme, &socks5) {
        match (&url.host, url.port_or_known_default) {
            (Some(host), Some(port)) => {
                let mut addr = copy_string(host);
                push_char(&mut addr, ':');
                push_decimal(&mut addr, port as u64);
                Some((addr, auth))
            },
            _ => None,
        }
    } else {
        None
    }
}

/// The proxy a setting selects.
#[derive(Debug)]
pub enum ProxyPlan {
    /// Connect directly: there is no setting, or it is a shadowsocks URL
    /// that is refused.
    Direct,
    /// The URL's scheme is not one of `socks5` and `ss`: connect directly.
    Unrecognized,
    /// Connect through a SOCKS5 server.
    Socks5 { server: String, auth: Option<Auth> },
    /// Connect through the shadowsocks server a URL names: cipher method,
    /// password, host and port.  The cipher method is passed on as written
    /// and not checked here: whether the shadowsocks client knows it is for
    /// that client to decide.
    Shadowsocks { method: String, password: String, host: String, port: u16 },
}

/// What a shadowsocks URL says.
#[derive(Debug)]
pub enum SsPlan {
    /// The whole URL was base64: this URL is to be read in its place.
    Reparse(String),
    /// A server: cipher method, password, host and port.  The cipher method
    /// is the URL's user name as written; it is not checked here.
    Server { method: String, password: String, host: String, port: u16 },
}

/// Why a shadowsocks URL is refused.
#[derive(Debug)]
pub enum SsUrlError {
    WrongScheme,
    WrongUrl,
    Base64(base64::DecodeError),
    Utf8(Utf8Error),
    /// The text a base64 body decodes to is not a URL.
    Url(UrlParseError),
}

/// The text of a base64 error, with its `Display` impl.
#[verifier::external_body]
fn decode_error_text(e: &base64::DecodeError) -> String {
    format!("{}", e)
}

/// The text of a UTF-8 error, with its `Display` impl.
#[verifier::external_body]
fn utf8_error_text(e: &Utf8Error) -> String {
    format!("{}", e)
}

/// The text of a URL parse error, with its `Display` impl.
#[verifier::external_body]
fn url_error_text(e: &UrlParseError) -> String {
    format!("{}", e)
}

impl SsUrlError {
    /// The text of the error: fixed texts for a wrong scheme and a wrong
    /// URL, the underlying error's own text otherwise.
    pub fn message(&self) -> (r: String)
        ensures
            *self is WrongScheme ==> r@ == "Wrong scheme"@,
            *self is WrongUrl ==> r@ == "Wrong url"@,
    {
        match self {
            SsUrlError::WrongScheme => literal("Wrong scheme"),
            SsUrlError::WrongUrl => literal("Wrong url"),
            SsUrlError::Base64(e) => decode_error_text(e),
            SsUrlError::Utf8(e) => utf8_error_text(e),
            SsUrlError::Url(e) => url_error_text(e),
        }
    }
}

/// The bytes `base64::decode_config` gives for an input with the URL-safe
/// alphabet and padding, when it accepts it.
pub uninterp spec fn base64_url_safe_decode(input: Seq<u8>) -> Option<Seq<u8>>;

/// Decodes URL-safe base64 with `base64::decode_config(input,
/// base64::URL_SAFE)`.
#[verifier::external_body]
pub(crate) fn base64_decode_url_safe(input: &[u8]) -> (r: Result<Vec<u8>, base64::DecodeError>)
    requires
        input@.len() + 3 <= usize::MAX,
    ensures
        r is Ok <==> base64_url_safe_decode(input@) is Some,
        r matches Ok(v) ==> v@ == base64_url_safe_decode(input@).unwrap(),
{
    base64::decode_config(input, base64::URL_SAFE)
}

/// Reads UTF-8 with `std::str::from_utf8`, which accepts exactly the valid
/// UTF-8 byte strings and decodes them.
#[verifier::external_body]
pub(crate) fn utf8_str(bytes: &[u8]) -> (r: Result<&str, Utf8Error>)
    ensures
        r is Ok <==> valid_utf8(bytes@),
        r matches Ok(s) ==> s@ == decode_utf8(bytes@),
{
    std::str::from_utf8(bytes)
}

/// What `url::Url::parse` reads from a text: `None` when it refuses it,
/// else the fields of the URL.
pub uninterp spec fn url_parse(input: Seq<char>) -> Option<UrlView>;

/// Parses a URL with `url::Url::parse` and reads the fields the proxy
/// logic uses.
#[verifier::external_body]
pub(crate) fn parse_url(input: &str) -> (r: Result<ProxyUrl, UrlParseError>)
    ensures
        r is Ok <==> url_parse(input@) is Some,
        r matches Ok(u) ==> u@ == url_parse(input@).unwrap(),
{
    url::Url::parse(input).map(|u| ProxyUrl {
        scheme: u.scheme().to_string(),
        has_authority: u.has_authority(),
        username: u.username().to_string(),
        password: u.password().map(str::to_string),
        host: u.host_str().map(str::to_string),
        port: u.port(),
        port_or_known_default: u.port_or_known_default(),
    })
}

/// The UTF-8 bytes of the host of a URL.
pub open spec fn host_bytes(url: UrlView) -> Seq<u8> {
    encode_utf8(url.host->Some_0)
}

/// Whether the host of a URL is short enough for the base64 decoder's
/// length estimate (it panics beyond that; no text in memory is so long).
pub open spec fn host_fits(url: UrlView) -> bool {
    url.host is Some ==> host_bytes(url).len() + 3 <= usize::MAX
}

/// Whether a shadowsocks URL is written as `ss://BASE64`: no user, no
/// password, no port, the whole body in the host.
pub open spec fn is_base64_form(url: UrlView) -> bool {
    url.username == Seq::<char>::empty() && url.password is None && url.host is Some
        && url.port is None
}

/// Whether a shadowsocks URL names a server: a password, a host and a port
/// (the user name is the cipher method).
pub open spec fn is_server_form(url: UrlView) -> bool {
    url.password is Some && url.host is Some && url.port is Some
}

/// The kind of answer `shadowsocks_plan` gives: 0 a wrong scheme, 1 a
/// wrong URL, 2 a body that is not base64, 3 a decoded body that is not
/// UTF-8, 4 a URL to read in place of this one, 5 a server.
pub open spec fn spec_shadowsocks_kind(url: UrlView) -> int {
    if url.scheme != "ss"@ {
        0
    } else if is_base64_form(url) {
        if base64_url_safe_decode(host_bytes(url)) is None {
            2
        } else if !valid_utf8(base64_url_safe_decode(host_bytes(url)).unwrap()) {
            3
        } else {
            4
        }
    } else if is_server_form(url) {
        5
    } else {
        1
    }
}

/// The URL text a base64 shadowsocks URL stands for: `ss://` followed by
/// its decoded body.
pub open spec fn reparse_text(url: UrlView) -> Seq<char> {
    "ss://"@ + decode_utf8(base64_url_safe_decode(host_bytes(url)).unwrap())
}

/// The kind of a shadowsocks answer, numbered as in
/// `spec_shadowsocks_kind`; 6 is a decoded body that is not a URL.
pub open spec fn ss_result_kind(r: Result<SsPlan, SsUrlError>) -> int {
    match r {
        Err(SsUrlError::WrongScheme) => 0,
        Err(SsUrlError::WrongUrl) => 1,
        Err(SsUrlError::Base64(_)) => 2,
        Err(SsUrlError::Utf8(_)) => 3,
        Err(SsUrlError::Url(_)) => 6,
        Ok(SsPlan::Reparse(_)) => 4,
        Ok(SsPlan::Server { .. }) => 5,
    }
}

/// Reads a shadowsocks URL: either its base64 body, decoded, is the URL to
/// read instead (prefixed with `ss://`), or it names a server with the
/// user name as cipher method.
pub fn shadowsocks_plan(url: &ProxyUrl) -> (r: Result<SsPlan, SsUrlError>)
    requires
        host_fits(url@),
    ensures
        ss_result_kind(r) == spec_shadowsocks_kind(url@),
        r matches Ok(SsPlan::Reparse(s)) ==> s@ == reparse_text(url@),
        r matches Ok(SsPlan::Server { method, password, host, port }) ==> method@ == url@.username
            && Some(password@) == url@.password && Some(host@) == url@.host && Some(port)
            == url@.port,
{
    let ss = literal("ss");
    if !string_eq(&url.scheme, &ss) {
        return Err(SsUrlError::WrongScheme);
    }
    let empty = String::new();
    let no_user = string_eq(&url.username, &empty);
    match (&url.password, &url.host, url.port) {
        (None, Some(content), None) => {
            if no_user {
                let bytes = content.as_str().as_bytes();
                assert(bytes@ == host_bytes(url@));
                let decoded = match base64_decode_url_safe(bytes) {
                    Ok(d) => d,
                    Err(e) => {
                        return Err(SsUrlError::Base64(e));
                    },
                };
                let decoded_str = match utf8_str(decoded.as_slice()) {
                    Ok(s) => s,
                    Err(e) => {
                        return Err(SsUrlError::Utf8(e));
                    },
                };
                let mut new_url = literal("ss://");
                push_str(&mut new_url, decoded_str);
                Ok(SsPlan::Reparse(new_url))
            } else {
                Err(SsUrlError::WrongUrl)
            }
        },
        (Some(password), Some(host), Some(port)) => Ok(
            SsPlan::Server {
                method: copy_string(&url.username),
                password: copy_string(password),
                host: copy_string(host),
                port,
            },
        ),
        _ => Err(SsUrlError::WrongUrl),
    }
}

/// How many base64 bodies are read in turn at most.  Each round decodes a
/// body into a shorter text, so no URL that fits in memory needs more.
pub const SS_MAX_ROUNDS: u64 = 0xffff_ffff_ffff_ffff;

/// What reading a shadowsocks URL comes to: the server it names, or the
/// kind of refusal (numbered as in `ss_result_kind`).
pub ghost enum SsOutcome {
    Server { method: Seq<char>, password: Seq<char>, host: Seq<char>, port: u16 },
    Refused(int),
}

/// The outcome of reading a shadowsocks URL with at most `rounds` further
/// base64 bodies read in turn: a URL that is base64 as a whole has the
/// outcome of the URL its body decodes to.
pub open spec fn spec_ss_resolve(url: UrlView, rounds: nat) -> SsOutcome
    decreases rounds,
{
    if !host_fits(url) {
        SsOutcome::Refused(1)
    } else if spec_shadowsocks_kind(url) == 5 {
        SsOutcome::Server {
            method: url.username,
            password: url.password->Some_0,
            host: url.host->Some_0,
            port: url.port->Some_0,
        }
    } else if spec_shadowsocks_kind(url) == 4 {
        if rounds == 0 {
            SsOutcome::Refused(1)
        } else {
            match url_parse(reparse_text(url)) {
                None => SsOutcome::Refused(6),
                Some(next) => spec_ss_resolve(next, (rounds - 1) as nat),
            }
        }
    } else {
        SsOutcome::Refused(spec_shadowsocks_kind(url))
    }
}

/// The outcome an answer of `shadowsocks_server` stands for.
pub open spec fn ss_outcome_of(r: Result<SsPlan, SsUrlError>) -> SsOutcome {
    match r {
        Ok(SsPlan::Server { method, password, host, port }) => SsOutcome::Server {
            method: method@,
            password: password@,
            host: host@,
            port,
        },
        _ => SsOutcome::Refused(ss_result_kind(r)),
    }
}

fn copy_opt(s: &Option<String>) -> (r: Option<String>)
    ensures
        opt_view(r) == opt_view(*s),
{
    match s {
        Some(t) => Some(copy_string(t)),
        None => None,
    }
}

fn copy_url(u: &ProxyUrl) -> (r: ProxyUrl)
    ensures
        r@ == u@,
{
    ProxyUrl {
        scheme: copy_string(&u.scheme),
        has_authority: u.has_authority,
        username: copy_string(&u.username),
        password: copy_opt(&u.password),
        host: copy_opt(&u.host),
        port: u.port,
        port_or_known_default: u.port_or_known_default,
    }
}

/// The shadowsocks server a URL names, reading a base64 body as the URL it
/// decodes to, again and again.
pub fn shadowsocks_server(url: &ProxyUrl) -> (r: Result<SsPlan, SsUrlError>)
    ensures
        ss_outcome_of(r) == spec_ss_resolve(url@, SS_MAX_ROUNDS as nat),
{
    let mut current = copy_url(url);
    let mut rounds: u64 = SS_MAX_ROUNDS;
    loop
        invariant
            spec_ss_resolve(current@, rounds as nat) == spec_ss_resolve(url@, SS_MAX_ROUNDS as nat),
        decreases rounds,
    {
        let fits = match &current.host {
            Some(h) => h.as_str().as_bytes().len() <= usize::MAX - 3,
            None => true,
        };
        if !fits {
            return Err(SsUrlError::WrongUrl);
        }
        assert(host_fits(current@));
        match shadowsocks_plan(&current) {
            Ok(SsPlan::Reparse(text)) => {
                if rounds == 0 {
                    return Err(SsUrlError::WrongUrl);
                }
                match parse_url(text.as_str()) {
                    Ok(next) => {
                        current = next;
                        rounds = rounds - 1;
                    },
                    Err(e) => {
                        return Err(SsUrlError::Url(e));
                    },
                }
            },
            other => {
                return other;
            },
        }
    }
}

/// A URL that is base64 as a whole comes to the same outcome as the URL
/// its body decodes to.
pub proof fn lemma_reparse_same_outcome(url: UrlView, next: UrlView, rounds: nat)
    requires
        host_fits(url),
        spec_shadowsocks_kind(url) == 4,
        url_parse(reparse_text(url)) == Some(next),
    ensures
        spec_ss_resolve(url, rounds + 1) == spec_ss_resolve(next, rounds),
{
}

/// Which proxy a setting selects: none means a direct connection, a
/// `socks5` URL its SOCKS5 server, an `ss` URL the shadowsocks server it
/// names or, when it is refused, a direct connection, any other URL a
/// direct connection (reported as unrecognized).
pub open spec fn spec_parse_proxy(proxy: Option<ProxyUrl>) -> int {
    match proxy {
        None => 0,
        Some(u) => if u.scheme@ == "socks5"@ {
            2
        } else if u.scheme@ == "ss"@ {
            match spec_ss_resolve(u@, SS_MAX_ROUNDS as nat) {
                SsOutcome::Server { .. } => 3,
                SsOutcome::Refused(_) => 0,
            }
        } else {
            1
        },
    }
}

/// The kind of a plan, numbered as in `spec_parse_proxy`.
pub open spec fn plan_kind(p: ProxyPlan) -> int {
    match p {
        ProxyPlan::Direct => 0,
        ProxyPlan::Unrecognized => 1,
        ProxyPlan::Socks5 { .. } => 2,
        ProxyPlan::Shadowsocks { .. } => 3,
    }
}

/// Chooses the proxy for a setting.  A `socks5` URL must name a server
/// (host and port); without one the setting is refused before this call.
pub fn parse_proxy(proxy: &Option<ProxyUrl>) -> (r: ProxyPlan)
    requires
        proxy matches Some(u) ==> (u.scheme@ == "socks5"@ ==> names_socks5_server(*u)),
    ensures
        plan_kind(r) == spec_parse_proxy(*proxy),
        r matches ProxyPlan::Socks5 { server, auth } ==> proxy matches Some(u) && server@
            == socks5_addr(*u) && auth_view(auth) == spec_auth(*u),
        r matches ProxyPlan::Shadowsocks { method, password, host, port } ==> proxy matches Some(u)
            && spec_ss_resolve(u@, SS_MAX_ROUNDS as nat) == (SsOutcome::Server {
            method: method@,
            password: password@,
            host: host@,
            port,
        }),
{
    match proxy {
        None => ProxyPlan::Direct,
        Some(u) => {
            let socks5 = literal("socks5");
            let ss = literal("ss");
            if string_eq(&u.scheme, &socks5) {
                match url_into_addr_auth(u) {
                    Some((server, auth)) => ProxyPlan::Socks5 { server, auth },
                    None => {
                        proof {
                            assert(false);
                        }
                        ProxyPlan::Direct
                    },
                }
            } else if string_eq(&u.scheme, &ss) {
                match shadowsocks_server(u) {
                    Ok(SsPlan::Server { method, password, host, port }) => ProxyPlan::Shadowsocks {
                        method,
                        password,
                        host,
                        port,
                    },
                    _ => ProxyPlan::Direct,
                }
            } else {
                ProxyPlan::Unrecognized
            }
        },
    }
}

/// The credentials read from a URL: none without an authority part;
/// with one, the user name as written and the password as written, or the
/// empty string when the URL has no password.  The password never comes
/// from the user name: two URLs that differ only in their user names carry
/// the same password.
pub proof fn lemma_credentials_of_url(url: ProxyUrl, other: ProxyUrl)
    ensures
        !url.has_authority ==> spec_auth(url) is None,
        url.has_authority ==> spec_auth(url) is Some && spec_auth(url)->Some_0.0 == url.username@,
        url.has_authority && url.password is None ==> spec_auth(url)->Some_0.1 == Seq::<char>::empty(),
        url.has_authority && url.password is Some ==> spec_auth(url)->Some_0.1
            == url.password->Some_0@,
        url.has_authority && other.has_authority && opt_view(url.password) == opt_view(other.password)
            ==> spec_auth(url)->Some_0.1 == spec_auth(other)->Some_0.1,
{
}

} // verus!

use lan_play::proxy::{parse_proxy, shadowsocks_plan, shadowsocks_server, url_into_addr_auth, ProxyPlan, ProxyUrl, SsPlan, SsUrlError};

fn url(scheme: &str, user: &str, password: Option<&str>, host: Option<&str>, port: Option<u16>) -> ProxyUrl {
    ProxyUrl {
        scheme: scheme.to_string(),
        has_authority: host.is_some(),
        username: user.to_string(),
        password: password.map(|p| p.to_string()),
        host: host.map(|h| h.to_string()),
        port,
        port_or_known_default: port,
    }
}

#[test]
fn socks5_url_gives_address_and_credentials() {
    let u = url("socks5", "alice", Some("secret"), Some("localhost"), Some(1080));
    let (addr, auth) = url_into_addr_auth(&u).unwrap();
    assert_eq!(addr, "localhost:1080");
    let auth = auth.unwrap();
    assert_eq!(auth.username, "alice");
    assert_eq!(auth.password, "secret");
}

#[test]
fn socks5_url_without_password_has_empty_password() {
    let u = url("socks5", "", None, Some("127.0.0.1"), Some(9));
    let (addr, auth) = url_into_addr_auth(&u).unwrap();
    assert_eq!(addr, "127.0.0.1:9");
    let auth = auth.unwrap();
    assert_eq!(auth.username, "");
    assert_eq!(auth.password, "");
}

#[test]
fn non_socks5_or_incomplete_urls_give_nothing() {
    assert!(url_into_addr_auth(&url("http", "", None, Some("h"), Some(80))).is_none());
    assert!(url_into_addr_auth(&url("socks5", "", None, Some("h"), None)).is_none());
    assert!(url_into_addr_auth(&url("socks5", "", None, None, Some(1))).is_none());
}

#[test]
fn no_authority_means_no_credentials() {
    let mut u = url("socks5", "", None, Some("h"), Some(65535));
    u.has_authority = false;
    let (addr, auth) = url_into_addr_auth(&u).unwrap();
    assert_eq!(addr, "h:65535");
    assert!(auth.is_none());
}

#[test]
fn proxy_choice() {
    assert!(matches!(parse_proxy(&None), ProxyPlan::Direct));
    let s = Some(url("socks5", "", None, Some("localhost"), Some(1080)));
    match parse_proxy(&s) {
        ProxyPlan::Socks5 { server, .. } => assert_eq!(server, "localhost:1080"),
        _ => panic!("expected socks5"),
    }
    assert!(matches!(parse_proxy(&Some(url("ss", "", None, Some("x"), None))), ProxyPlan::Direct));
    match parse_proxy(&Some(url("ss", "aes-128-gcm", Some("pw"), Some("example.com"), Some(8388)))) {
        ProxyPlan::Shadowsocks { method, password, host, port } => {
            assert_eq!(method, "aes-128-gcm");
            assert_eq!(password, "pw");
            assert_eq!(host, "example.com");
            assert_eq!(port, 8388);
        }
        other => panic!("unexpected {:?}", other),
    }
    assert!(matches!(parse_proxy(&Some(url("http", "", None, Some("x"), Some(1)))), ProxyPlan::Unrecognized));
}

#[test]
fn shadowsocks_base64_url_is_read_in_place() {
    let u = url("ss", "", None, Some("YWVzLTI1Ni1nY206cGFzc0BleGFtcGxlLmNvbTo4Mzg4"), None);
    match shadowsocks_plan(&u) {
        Ok(SsPlan::Reparse(s)) => assert_eq!(s, "ss://aes-256-gcm:pass@example.com:8388"),
        other => panic!("unexpected {:?}", other),
    }
}

#[test]
fn shadowsocks_server_url() {
    let u = url("ss", "aes-128-gcm", Some("pw"), Some("example.com"), Some(8388));
    match shadowsocks_plan(&u) {
        Ok(SsPlan::Server { method, password, host, port }) => {
            assert_eq!(method, "aes-128-gcm");
            assert_eq!(password, "pw");
            assert_eq!(host, "example.com");
            assert_eq!(port, 8388);
        }
        other => panic!("unexpected {:?}", other),
    }
}

#[test]
fn shadowsocks_refusals() {
    assert!(matches!(shadowsocks_plan(&url("socks5", "", None, Some("h"), Some(1))), Err(SsUrlError::WrongScheme)));
    assert!(matches!(shadowsocks_plan(&url("ss", "m", None, Some("h"), Some(1))), Err(SsUrlError::WrongUrl)));
    assert!(matches!(shadowsocks_plan(&url("ss", "", None, Some("!!!"), None)), Err(SsUrlError::Base64(_))));
    assert!(matches!(shadowsocks_plan(&url("ss", "", None, Some("__4="), None)), Err(SsUrlError::Utf8(_))));
}

#[test]
fn shadowsocks_error_texts() {
    assert_eq!(SsUrlError::WrongScheme.message(), "Wrong scheme");
    assert_eq!(SsUrlError::WrongUrl.message(), "Wrong url");
    match shadowsocks_plan(&url("ss", "", None, Some("!!!"), None)) {
        Err(e) => assert!(!e.message().is_empty()),
        other => panic!("unexpected {:?}", other),
    }
}

#[test]
fn shadowsocks_refused_with_texts() {
    let e = shadowsocks_server(&url("socks5", "aes-256-cfb", Some("pw"), Some("127.0.0.1"), Some(8388))).unwrap_err();
    assert_eq!(e.message(), "Wrong scheme");
    let e = shadowsocks_server(&url("ss", "aes-256-cfb", Some("pw"), Some("example.com"), None)).unwrap_err();
    assert_eq!(e.message(), "Wrong url");
}

#[test]
fn shadowsocks_base64_url_reads_the_decoded_url() {
    let u = url("ss", "", None, Some("YWVzLTI1Ni1nY206cGFzc0BleGFtcGxlLmNvbTo4Mzg4"), None);
    match shadowsocks_server(&u) {
        Ok(SsPlan::Server { method, password, host, port }) => {
            assert_eq!(method, "aes-256-gcm");
            assert_eq!(password, "pass");
            assert_eq!(host, "example.com");
            assert_eq!(port, 8388);
        }
        other => panic!("unexpected {:?}", other),
    }
    match parse_proxy(&Some(u)) {
        ProxyPlan::Shadowsocks { host, port, .. } => {
            assert_eq!(host, "example.com");
            assert_eq!(port, 8388);
        }
        other => panic!("unexpected {:?}", other),
    }
}

#[test]
fn shadowsocks_body_that_is_no_url_is_refused() {
    let r = shadowsocks_server(&url("ss", "", None, Some("Ww=="), None));
    assert!(matches!(r, Err(SsUrlError::Url(_))));
    assert!(matches!(parse_proxy(&Some(url("ss", "", None, Some("Ww=="), None))), ProxyPlan::Direct));
}

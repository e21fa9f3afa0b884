use lan_play::check::{http_request, is_http_ok, ping_count, wait_after_ping};
use lan_play::gateway::{DirectProxy, TcpGateway};
use lan_play::text::{push_decimal, push_dotted};
use std::sync::Arc;

#[test]
fn http_probe() {
    assert_eq!(http_request("example.org"), "GET / HTTP/1.0\r\nHost: example.org\r\n\r\n");
    assert!(is_http_ok("HTTP/1.0 200 OK\r\nServer: x\r\n"));
    assert!(!is_http_ok("HTTP/1.1 404 Not Found\r\n"));
}

#[test]
fn ping_rounds() {
    assert_eq!(ping_count(None), 4);
    assert_eq!(ping_count(Some(2)), 2);
    assert!(wait_after_ping(0, 2));
    assert!(!wait_after_ping(1, 2));
}

#[test]
fn tcp_gateway_keeps_its_proxy() {
    let proxy = Arc::new(DirectProxy::new());
    let g = TcpGateway::new(proxy.clone());
    assert!(Arc::ptr_eq(g.proxy(), &proxy));
}

#[test]
fn decimal_and_dotted_text() {
    let mut s = String::new();
    push_decimal(&mut s, 0);
    s.push(' ');
    push_decimal(&mut s, 65535);
    s.push(' ');
    push_dotted(&mut s, [10, 0, 255, 7]);
    assert_eq!(s, "0 65535 10.0.255.7");
}

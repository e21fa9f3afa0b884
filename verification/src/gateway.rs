//! The gateway's fixed settings and the TCP side of it.
use std::sync::Arc;
use vstd::prelude::*;

verus! {

/// How many TCP listeners each interface's network stack keeps ready.
pub const BACKLOG: usize = 10;
/// Seconds an idle proxied TCP stream is kept.
pub const TCP_TIMEOUT_SECS: u64 = 60;
/// Seconds an idle UDP session is kept.
pub const UDP_TIMEOUT_SECS: u64 = 60;
/// Seconds a proxy gets to set up a connection.
pub const CONNECT_TIMEOUT_SECS: u64 = 10;
/// Bytes read at once from a proxied UDP socket.
pub const UDP_RECV_BUFFER: usize = 2048;

/// A proxy that connects directly.
#[derive(Debug)]
pub struct DirectProxy {}

impl DirectProxy {
    pub fn new() -> (r: DirectProxy)
        ensures
            r == (DirectProxy {}),
    {
        DirectProxy {}
    }
}

/// Accepts TCP connections on the captured network and proxies them.
pub struct TcpGateway<P> {
    proxy: Arc<P>,
}

impl<P> TcpGateway<P> {
    /// The proxy the gateway uses.
    pub closed spec fn spec_proxy(&self) -> Arc<P> {
        self.proxy
    }

    pub fn new(proxy: Arc<P>) -> (r: TcpGateway<P>)
        ensures
            r.spec_proxy() == proxy,
    {
        TcpGateway { proxy }
    }

    /// The proxy the gateway uses.
    pub fn proxy(&self) -> (r: &Arc<P>)
        ensures
            *r == self.spec_proxy(),
    {
        &self.proxy
    }
}

} // verus!

//! Verified core of a LAN-over-Internet gateway: the relay protocol,
//! packet classification, UDP datagram framing and the UDP session table.
pub mod protocol;
pub mod wire;
pub mod packet;
pub mod lru_cache;
pub mod sessions;
pub mod raw_udp;
pub mod client;
pub mod text;
pub mod proxy;
pub mod reactor;
pub mod peekable;
pub mod iface;
pub mod dns;
pub mod gateway;
pub mod check;

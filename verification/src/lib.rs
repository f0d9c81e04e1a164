//! A forward-proxy gateway library: protocol sniffing, a round-robin proxy
//! pool with bounded-concurrency health checks, and the HTTP and SOCKS5
//! tunnel state machines.

pub mod config;
pub mod errors;
pub mod gate;
pub mod http;
pub mod laws;
pub mod pool;
pub mod protocol;
pub mod proxy;
pub mod socks5;
pub mod text;

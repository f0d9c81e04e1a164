//! The closed error taxonomy of the gateway. Callers branch on the kind,
//! never on message text.

use vstd::prelude::*;

verus! {

/// Every failure the gateway can report, as a closed enumeration.
#[derive(Clone, Copy, Debug, PartialEq, Eq, Structural)]
pub enum ProxyError {
    /// The leading bytes of a connection match neither SOCKS5 nor HTTP.
    ProtocolDetectionFailed,
    /// The HTTP request head could not be parsed, or lacked method or path.
    HttpParseError,
    /// A CONNECT path was not a single `host:port` pair.
    InvalidConnectTarget,
    /// A SOCKS5 message broke the supported subset of the protocol.
    Socks5ProtocolError,
    /// The TCP connection to the chosen upstream could not be established.
    UpstreamConnectFailed,
    /// The upstream SOCKS5 handshake or reply refused the session.
    UpstreamHandshakeFailed,
    /// The backing list yielded no parseable proxy entry.
    PoolEmpty,
    /// A selection was requested from an empty protocol-scoped list.
    PoolExhausted,
    /// A file or socket operation failed outside the core's control.
    Io,
}

impl ProxyError {
    /// A short stable description of the error kind.
    pub fn describe(&self) -> (r: &'static str)
        ensures
            r@ == Self::describe_spec(*self),
    {
        match self {
            ProxyError::ProtocolDetectionFailed => "protocol detection failed",
            ProxyError::HttpParseError => "http request parse failed",
            ProxyError::InvalidConnectTarget => "invalid connect target",
            ProxyError::Socks5ProtocolError => "socks5 protocol error",
            ProxyError::UpstreamConnectFailed => "upstream connect failed",
            ProxyError::UpstreamHandshakeFailed => "upstream handshake failed",
            ProxyError::PoolEmpty => "proxy pool is empty",
            ProxyError::PoolExhausted => "proxy pool is exhausted",
            ProxyError::Io => "io error",
        }
    }

    /// What `describe` returns for each kind.
    pub open spec fn describe_spec(e: ProxyError) -> Seq<char> {
        match e {
            ProxyError::ProtocolDetectionFailed => "protocol detection failed"@,
            ProxyError::HttpParseError => "http request parse failed"@,
            ProxyError::InvalidConnectTarget => "invalid connect target"@,
            ProxyError::Socks5ProtocolError => "socks5 protocol error"@,
            ProxyError::UpstreamConnectFailed => "upstream connect failed"@,
            ProxyError::UpstreamHandshakeFailed => "upstream handshake failed"@,
            ProxyError::PoolEmpty => "proxy pool is empty"@,
            ProxyError::PoolExhausted => "proxy pool is exhausted"@,
            ProxyError::Io => "io error"@,
        }
    }
}

} // verus!

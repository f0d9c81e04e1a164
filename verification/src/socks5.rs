//! The SOCKS5 tunnel handler: the destination-address codec and the session
//! state machine that walks a client from its greeting through the chained
//! upstream handshake to the relay.
//!
//! The machine owns every protocol decision; an executor performs the reads,
//! writes and the upstream dial the returned actions name, and feeds the
//! outcome back in as the next event.

use vstd::prelude::*;
use vstd::utf8::{decode_utf8, valid_utf8};

use crate::errors::ProxyError;
use crate::text::{bytes_to_utf8_string, dec_chars, append_dec, push_all};

verus! {

/// A destination address as a SOCKS5 request carries it.
pub enum Socks5Addr {
    /// Four raw IPv4 octets.
    V4(Vec<u8>),
    /// A domain name of at most 255 UTF-8 bytes.
    Domain(Vec<u8>),
    /// Sixteen raw IPv6 octets.
    V6(Vec<u8>),
}

/// The mathematical value of a `Socks5Addr`.
pub ghost enum AddrView {
    V4(Seq<u8>),
    Domain(Seq<u8>),
    V6(Seq<u8>),
}

impl View for Socks5Addr {
    type V = AddrView;

    open spec fn view(&self) -> AddrView {
        match self {
            Socks5Addr::V4(b) => AddrView::V4(b@),
            Socks5Addr::Domain(b) => AddrView::Domain(b@),
            Socks5Addr::V6(b) => AddrView::V6(b@),
        }
    }
}

/// Validity of an address view: the field widths the wire format fixes, and
/// for a domain the UTF-8 form the handler insists on.
pub open spec fn addr_wf(a: AddrView) -> bool {
    match a {
        AddrView::V4(b) => b.len() == 4,
        AddrView::Domain(d) => d.len() <= 255 && valid_utf8(d),
        AddrView::V6(b) => b.len() == 16,
    }
}

/// An address as it is laid out inside a SOCKS5 request: the type byte, a
/// length byte for domains, then the raw bytes.
pub open spec fn encode_addr_bytes(a: AddrView) -> Seq<u8> {
    match a {
        AddrView::V4(b) => seq![1u8] + b,
        AddrView::Domain(d) => seq![3u8, d.len() as u8] + d,
        AddrView::V6(b) => seq![4u8] + b,
    }
}

/// The CONNECT request the gateway sends its upstream: version 5, command
/// CONNECT, the reserved byte, the encoded address, and the port in network
/// byte order.
pub open spec fn connect_request_bytes(a: AddrView, port: u16) -> Seq<u8> {
    seq![5u8, 1u8, 0u8] + encode_addr_bytes(a)
        + seq![(port as int / 256) as u8, (port as int % 256) as u8]
}

/// The fixed ten-byte failure reply: REP host-unreachable with zeroed IPv4
/// bind fields.
pub open spec fn failure_reply_bytes() -> Seq<u8> {
    seq![5u8, 4u8, 0u8, 1u8, 0u8, 0u8, 0u8, 0u8, 0u8, 0u8]
}

/// The fixed ten-byte success reply: REP succeeded with zeroed IPv4 bind
/// fields; the server never surfaces a real bind address.
pub open spec fn success_reply_bytes() -> Seq<u8> {
    seq![5u8, 0u8, 0u8, 1u8, 0u8, 0u8, 0u8, 0u8, 0u8, 0u8]
}

/// The no-authentication greeting reply sent to the client.
pub open spec fn greeting_reply_bytes() -> Seq<u8> {
    seq![5u8, 0u8]
}

/// The no-authentication hello sent to the upstream.
pub open spec fn upstream_hello_bytes() -> Seq<u8> {
    seq![5u8, 1u8, 0u8]
}

/// Converts a big-endian byte pair into a port number.
pub fn port_from_be(hi: u8, lo: u8) -> (r: u16)
    ensures
        r == hi as u16 * 256 + lo as u16,
{
    (hi as u16) * 256 + (lo as u16)
}

/// Encodes the client's destination into the CONNECT request for the
/// upstream.
pub fn encode_connect_request(addr: &Socks5Addr, port: u16) -> (r: Vec<u8>)
    requires
        addr_wf(addr@),
    ensures
        r@ == connect_request_bytes(addr@, port),
{
    let mut out: Vec<u8> = Vec::new();
    out.push(5u8);
    out.push(1u8);
    out.push(0u8);
    match addr {
        Socks5Addr::V4(b) => {
            out.push(1u8);
            push_all(&mut out, b);
        },
        Socks5Addr::Domain(d) => {
            out.push(3u8);
            out.push(d.len() as u8);
            push_all(&mut out, d);
        },
        Socks5Addr::V6(b) => {
            out.push(4u8);
            push_all(&mut out, b);
        },
    }
    out.push((port / 256) as u8);
    out.push((port % 256) as u8);
    proof {
        assert(out@ =~= connect_request_bytes(addr@, port));
    }
    out
}

/// The fixed failure reply as bytes on the wire.
pub fn failure_reply() -> (r: Vec<u8>)
    ensures
        r@ == failure_reply_bytes(),
{
    let mut v: Vec<u8> = Vec::new();
    v.push(5u8); v.push(4u8); v.push(0u8); v.push(1u8); v.push(0u8);
    v.push(0u8); v.push(0u8); v.push(0u8); v.push(0u8); v.push(0u8);
    proof {
        assert(v@ =~= failure_reply_bytes());
    }
    v
}

/// The fixed success reply as bytes on the wire.
pub fn success_reply() -> (r: Vec<u8>)
    ensures
        r@ == success_reply_bytes(),
{
    let mut v: Vec<u8> = Vec::new();
    v.push(5u8); v.push(0u8); v.push(0u8); v.push(1u8); v.push(0u8);
    v.push(0u8); v.push(0u8); v.push(0u8); v.push(0u8); v.push(0u8);
    proof {
        assert(v@ =~= success_reply_bytes());
    }
    v
}

fn greeting_reply() -> (r: Vec<u8>)
    ensures
        r@ == greeting_reply_bytes(),
{
    let mut v: Vec<u8> = Vec::new();
    v.push(5u8); v.push(0u8);
    proof {
        assert(v@ =~= greeting_reply_bytes());
    }
    v
}

fn upstream_hello() -> (r: Vec<u8>)
    ensures
        r@ == upstream_hello_bytes(),
{
    let mut v: Vec<u8> = Vec::new();
    v.push(5u8); v.push(1u8); v.push(0u8);
    proof {
        assert(v@ =~= upstream_hello_bytes());
    }
    v
}

/// Where a SOCKS5 session stands.
pub enum S5State {
    /// Awaiting the client's two greeting bytes: version and method count.
    Greeting,
    /// Awaiting `n` authentication-method bytes.
    Methods { n: u8 },
    /// Awaiting the four request-head bytes: VER, CMD, RSV, ATYP.
    Request,
    /// Awaiting the raw bytes of a fixed-width address.
    AddrFixed { atyp: u8, width: u8 },
    /// Awaiting the domain length byte.
    DomainLen,
    /// Awaiting `n` domain bytes.
    DomainBytes { n: u8 },
    /// Awaiting the two port bytes that follow the address.
    PortBytes { addr: Socks5Addr },
    /// Awaiting the outcome of the dial to the chosen upstream.
    Connecting { addr: Socks5Addr, port: u16 },
    /// Awaiting the upstream's two handshake reply bytes.
    UpstreamGreeting { addr: Socks5Addr, port: u16 },
    /// Awaiting the upstream's four reply-head bytes.
    UpstreamReplyHead,
    /// Awaiting `need` bound-address and port bytes, which are discarded.
    SkipBound { need: usize },
    /// Awaiting the upstream's bound-domain length byte.
    SkipDomainLen,
    /// Both directions relay freely; the machine is done.
    Relaying,
    /// The session is over; `error` names what ended it, if anything did.
    /// Paired with a reply-writing action the failure was recovered — the
    /// client was answered and the session ends cleanly; paired with `Stop`
    /// the session aborts with that error.
    Closed { error: Option<ProxyError> },
}

/// The mathematical value of an `S5State`.
pub ghost enum S5StateView {
    Greeting,
    Methods(u8),
    Request,
    AddrFixed(u8, u8),
    DomainLen,
    DomainBytes(u8),
    PortBytes(AddrView),
    Connecting(AddrView, u16),
    UpstreamGreeting(AddrView, u16),
    UpstreamReplyHead,
    SkipBound(int),
    SkipDomainLen,
    Relaying,
    Closed(Option<ProxyError>),
}

impl View for S5State {
    type V = S5StateView;

    open spec fn view(&self) -> S5StateView {
        match self {
            S5State::Greeting => S5StateView::Greeting,
            S5State::Methods { n } => S5StateView::Methods(*n),
            S5State::Request => S5StateView::Request,
            S5State::AddrFixed { atyp, width } => S5StateView::AddrFixed(*atyp, *width),
            S5State::DomainLen => S5StateView::DomainLen,
            S5State::DomainBytes { n } => S5StateView::DomainBytes(*n),
            S5State::PortBytes { addr } => S5StateView::PortBytes(addr@),
            S5State::Connecting { addr, port } => S5StateView::Connecting(addr@, *port),
            S5State::UpstreamGreeting { addr, port } =>
                S5StateView::UpstreamGreeting(addr@, *port),
            S5State::UpstreamReplyHead => S5StateView::UpstreamReplyHead,
            S5State::SkipBound { need } => S5StateView::SkipBound(*need as int),
            S5State::SkipDomainLen => S5StateView::SkipDomainLen,
            S5State::Relaying => S5StateView::Relaying,
            S5State::Closed { error } => S5StateView::Closed(*error),
        }
    }
}

/// What the executor reports back to the machine.
pub enum S5Event {
    /// The bytes the last read action asked for arrived in full.
    Bytes(Vec<u8>),
    /// The dial to the upstream succeeded.
    Connected,
    /// The dial to the upstream failed.
    ConnectFailed,
}

/// The mathematical value of an `S5Event`.
pub ghost enum S5EventView {
    Bytes(Seq<u8>),
    Connected,
    ConnectFailed,
}

impl View for S5Event {
    type V = S5EventView;

    open spec fn view(&self) -> S5EventView {
        match self {
            S5Event::Bytes(b) => S5EventView::Bytes(b@),
            S5Event::Connected => S5EventView::Connected,
            S5Event::ConnectFailed => S5EventView::ConnectFailed,
        }
    }
}

/// What the executor must do next.
pub enum S5Action {
    /// Read exactly this many bytes from the client.
    ReadClient(usize),
    /// Write these bytes to the client, then read this many bytes from it.
    WriteClientThenReadClient(Vec<u8>, usize),
    /// Dial the chosen upstream proxy's address.
    ConnectUpstream,
    /// Write these bytes to the upstream, then read this many bytes from it.
    WriteUpstreamThenReadUpstream(Vec<u8>, usize),
    /// Read exactly this many bytes from the upstream and discard them.
    ReadUpstream(usize),
    /// Write these bytes to the client, then relay both directions until
    /// either side closes.
    WriteClientThenRelay(Vec<u8>),
    /// Write these bytes to the client and end the session cleanly.
    WriteClientThenClose(Vec<u8>),
    /// End the session; the state's error says why.
    Stop,
}

/// The mathematical value of an `S5Action`.
pub ghost enum S5ActionView {
    ReadClient(int),
    WriteClientThenReadClient(Seq<u8>, int),
    ConnectUpstream,
    WriteUpstreamThenReadUpstream(Seq<u8>, int),
    ReadUpstream(int),
    WriteClientThenRelay(Seq<u8>),
    WriteClientThenClose(Seq<u8>),
    Stop,
}

impl View for S5Action {
    type V = S5ActionView;

    open spec fn view(&self) -> S5ActionView {
        match self {
            S5Action::ReadClient(n) => S5ActionView::ReadClient(*n as int),
            S5Action::WriteClientThenReadClient(b, n) =>
                S5ActionView::WriteClientThenReadClient(b@, *n as int),
            S5Action::ConnectUpstream => S5ActionView::ConnectUpstream,
            S5Action::WriteUpstreamThenReadUpstream(b, n) =>
                S5ActionView::WriteUpstreamThenReadUpstream(b@, *n as int),
            S5Action::ReadUpstream(n) => S5ActionView::ReadUpstream(*n as int),
            S5Action::WriteClientThenRelay(b) => S5ActionView::WriteClientThenRelay(b@),
            S5Action::WriteClientThenClose(b) => S5ActionView::WriteClientThenClose(b@),
            S5Action::Stop => S5ActionView::Stop,
        }
    }
}

/// The event each state awaits: the executor must answer a read of `n`
/// bytes with exactly `n` bytes, and a dial with its outcome. Terminal
/// states await nothing.
pub open spec fn event_ok(s: S5StateView, e: S5EventView) -> bool {
    match s {
        S5StateView::Greeting => e matches S5EventView::Bytes(b) && b.len() == 2,
        S5StateView::Methods(n) => e matches S5EventView::Bytes(b) && b.len() == n,
        S5StateView::Request => e matches S5EventView::Bytes(b) && b.len() == 4,
        S5StateView::AddrFixed(_, need) => e matches S5EventView::Bytes(b) && b.len() == need,
        S5StateView::DomainLen => e matches S5EventView::Bytes(b) && b.len() == 1,
        S5StateView::DomainBytes(n) => e matches S5EventView::Bytes(b) && b.len() == n,
        S5StateView::PortBytes(_) => e matches S5EventView::Bytes(b) && b.len() == 2,
        S5StateView::Connecting(_, _) =>
            e == S5EventView::Connected || e == S5EventView::ConnectFailed,
        S5StateView::UpstreamGreeting(_, _) => e matches S5EventView::Bytes(b) && b.len() == 2,
        S5StateView::UpstreamReplyHead => e matches S5EventView::Bytes(b) && b.len() == 4,
        S5StateView::SkipBound(need) => e matches S5EventView::Bytes(b) && b.len() == need,
        S5StateView::SkipDomainLen => e matches S5EventView::Bytes(b) && b.len() == 1,
        S5StateView::Relaying => false,
        S5StateView::Closed(_) => false,
    }
}

/// Addresses the machine carries between states are well formed.
pub open spec fn state_wf(s: S5StateView) -> bool {
    match s {
        S5StateView::AddrFixed(atyp, need) =>
            (atyp == 1u8 && need == 4u8) || (atyp == 4u8 && need == 16u8),
        S5StateView::PortBytes(a) => addr_wf(a),
        S5StateView::Connecting(a, _) => addr_wf(a),
        S5StateView::UpstreamGreeting(a, _) => addr_wf(a),
        S5StateView::SkipBound(need) => 0 <= need <= 257,
        _ => true,
    }
}

/// The transition relation of a SOCKS5 session, exactly as the handler
/// behaves: greeting and method bytes are accepted unconditionally and
/// answered with the no-auth reply; the request must be version 5 command
/// CONNECT with a known address type; a failed upstream dial, a refused
/// upstream handshake or a non-zero upstream reply code each send the fixed
/// failure reply and end the session cleanly; a successful chain discards
/// the upstream's bound address and sends the fixed success reply before
/// relaying.
pub open spec fn step_spec(s: S5StateView, e: S5EventView) -> (S5StateView, S5ActionView) {
    match (s, e) {
        (S5StateView::Greeting, S5EventView::Bytes(b)) => (
            S5StateView::Methods(b[1]),
            S5ActionView::ReadClient(b[1] as int),
        ),
        (S5StateView::Methods(_), S5EventView::Bytes(_)) => (
            S5StateView::Request,
            S5ActionView::WriteClientThenReadClient(greeting_reply_bytes(), 4),
        ),
        (S5StateView::Request, S5EventView::Bytes(b)) => {
            if b[0] != 5u8 || b[1] != 1u8 {
                (S5StateView::Closed(Some(ProxyError::Socks5ProtocolError)), S5ActionView::Stop)
            } else if b[3] == 1u8 {
                (S5StateView::AddrFixed(1u8, 4u8), S5ActionView::ReadClient(4))
            } else if b[3] == 3u8 {
                (S5StateView::DomainLen, S5ActionView::ReadClient(1))
            } else if b[3] == 4u8 {
                (S5StateView::AddrFixed(4u8, 16u8), S5ActionView::ReadClient(16))
            } else {
                (S5StateView::Closed(Some(ProxyError::Socks5ProtocolError)), S5ActionView::Stop)
            }
        },
        (S5StateView::AddrFixed(atyp, _), S5EventView::Bytes(b)) => (
            S5StateView::PortBytes(
                if atyp == 1u8 { AddrView::V4(b) } else { AddrView::V6(b) }),
            S5ActionView::ReadClient(2),
        ),
        (S5StateView::DomainLen, S5EventView::Bytes(b)) => (
            S5StateView::DomainBytes(b[0]),
            S5ActionView::ReadClient(b[0] as int),
        ),
        (S5StateView::DomainBytes(_), S5EventView::Bytes(b)) => {
            if valid_utf8(b) {
                (S5StateView::PortBytes(AddrView::Domain(b)), S5ActionView::ReadClient(2))
            } else {
                (S5StateView::Closed(Some(ProxyError::Socks5ProtocolError)), S5ActionView::Stop)
            }
        },
        (S5StateView::PortBytes(a), S5EventView::Bytes(b)) => (
            S5StateView::Connecting(a, (b[0] as int * 256 + b[1] as int) as u16),
            S5ActionView::ConnectUpstream,
        ),
        (S5StateView::Connecting(a, p), S5EventView::Connected) => (
            S5StateView::UpstreamGreeting(a, p),
            S5ActionView::WriteUpstreamThenReadUpstream(upstream_hello_bytes(), 2),
        ),
        (S5StateView::Connecting(_, _), S5EventView::ConnectFailed) => (
            S5StateView::Closed(Some(ProxyError::UpstreamConnectFailed)),
            S5ActionView::WriteClientThenClose(failure_reply_bytes()),
        ),
        (S5StateView::UpstreamGreeting(a, p), S5EventView::Bytes(b)) => {
            if b[0] == 5u8 && b[1] == 0u8 {
                (
                    S5StateView::UpstreamReplyHead,
                    S5ActionView::WriteUpstreamThenReadUpstream(connect_request_bytes(a, p), 4),
                )
            } else {
                (
                    S5StateView::Closed(Some(ProxyError::UpstreamHandshakeFailed)),
                    S5ActionView::WriteClientThenClose(failure_reply_bytes()),
                )
            }
        },
        (S5StateView::UpstreamReplyHead, S5EventView::Bytes(b)) => {
            if b[1] != 0u8 {
                (
                    S5StateView::Closed(Some(ProxyError::UpstreamHandshakeFailed)),
                    S5ActionView::WriteClientThenClose(failure_reply_bytes()),
                )
            } else if b[3] == 1u8 {
                (S5StateView::SkipBound(6), S5ActionView::ReadUpstream(6))
            } else if b[3] == 3u8 {
                (S5StateView::SkipDomainLen, S5ActionView::ReadUpstream(1))
            } else if b[3] == 4u8 {
                (S5StateView::SkipBound(18), S5ActionView::ReadUpstream(18))
            } else {
                (S5StateView::Closed(Some(ProxyError::Socks5ProtocolError)), S5ActionView::Stop)
            }
        },
        (S5StateView::SkipDomainLen, S5EventView::Bytes(b)) => (
            S5StateView::SkipBound(b[0] as int + 2),
            S5ActionView::ReadUpstream(b[0] as int + 2),
        ),
        (S5StateView::SkipBound(_), S5EventView::Bytes(_)) => (
            S5StateView::Relaying,
            S5ActionView::WriteClientThenRelay(success_reply_bytes()),
        ),
        _ => (S5StateView::Closed(None), S5ActionView::Stop),
    }
}

/// Drives a SOCKS5 session one step: consumes the awaited event and hands
/// back the next state with the action the executor must perform.
pub fn socks5_step(s: S5State, e: S5Event) -> (r: (S5State, S5Action))
    requires
        event_ok(s@, e@),
        state_wf(s@),
    ensures
        (r.0@, r.1@) == step_spec(s@, e@),
        state_wf(r.0@),
{
    match (s, e) {
        (S5State::Greeting, S5Event::Bytes(b)) => {
            let n = b[1];
            (S5State::Methods { n }, S5Action::ReadClient(n as usize))
        },
        (S5State::Methods { n: _ }, S5Event::Bytes(_)) => (
            S5State::Request,
            S5Action::WriteClientThenReadClient(greeting_reply(), 4),
        ),
        (S5State::Request, S5Event::Bytes(b)) => {
            if b[0] != 5u8 || b[1] != 1u8 {
                (
                    S5State::Closed { error: Some(ProxyError::Socks5ProtocolError) },
                    S5Action::Stop,
                )
            } else if b[3] == 1u8 {
                (S5State::AddrFixed { atyp: 1, width: 4 }, S5Action::ReadClient(4))
            } else if b[3] == 3u8 {
                (S5State::DomainLen, S5Action::ReadClient(1))
            } else if b[3] == 4u8 {
                (S5State::AddrFixed { atyp: 4, width: 16 }, S5Action::ReadClient(16))
            } else {
                (
                    S5State::Closed { error: Some(ProxyError::Socks5ProtocolError) },
                    S5Action::Stop,
                )
            }
        },
        (S5State::AddrFixed { atyp, width: _ }, S5Event::Bytes(b)) => {
            let addr = if atyp == 1u8 { Socks5Addr::V4(b) } else { Socks5Addr::V6(b) };
            (S5State::PortBytes { addr }, S5Action::ReadClient(2))
        },
        (S5State::DomainLen, S5Event::Bytes(b)) => {
            let n = b[0];
            (S5State::DomainBytes { n }, S5Action::ReadClient(n as usize))
        },
        (S5State::DomainBytes { n: _ }, S5Event::Bytes(b)) => {
            if bytes_to_utf8_string(b.clone()).is_some() {
                (S5State::PortBytes { addr: Socks5Addr::Domain(b) }, S5Action::ReadClient(2))
            } else {
                (
                    S5State::Closed { error: Some(ProxyError::Socks5ProtocolError) },
                    S5Action::Stop,
                )
            }
        },
        (S5State::PortBytes { addr }, S5Event::Bytes(b)) => {
            let port = port_from_be(b[0], b[1]);
            (S5State::Connecting { addr, port }, S5Action::ConnectUpstream)
        },
        (S5State::Connecting { addr, port }, S5Event::Connected) => (
            S5State::UpstreamGreeting { addr, port },
            S5Action::WriteUpstreamThenReadUpstream(upstream_hello(), 2),
        ),
        (S5State::Connecting { addr: _, port: _ }, S5Event::ConnectFailed) => (
            S5State::Closed { error: Some(ProxyError::UpstreamConnectFailed) },
            S5Action::WriteClientThenClose(failure_reply()),
        ),
        (S5State::UpstreamGreeting { addr, port }, S5Event::Bytes(b)) => {
            if b[0] == 5u8 && b[1] == 0u8 {
                let req = encode_connect_request(&addr, port);
                (
                    S5State::UpstreamReplyHead,
                    S5Action::WriteUpstreamThenReadUpstream(req, 4),
                )
            } else {
                (
                    S5State::Closed { error: Some(ProxyError::UpstreamHandshakeFailed) },
                    S5Action::WriteClientThenClose(failure_reply()),
                )
            }
        },
        (S5State::UpstreamReplyHead, S5Event::Bytes(b)) => {
            if b[1] != 0u8 {
                (
                    S5State::Closed { error: Some(ProxyError::UpstreamHandshakeFailed) },
                    S5Action::WriteClientThenClose(failure_reply()),
                )
            } else if b[3] == 1u8 {
                (S5State::SkipBound { need: 6 }, S5Action::ReadUpstream(6))
            } else if b[3] == 3u8 {
                (S5State::SkipDomainLen, S5Action::ReadUpstream(1))
            } else if b[3] == 4u8 {
                (S5State::SkipBound { need: 18 }, S5Action::ReadUpstream(18))
            } else {
                (
                    S5State::Closed { error: Some(ProxyError::Socks5ProtocolError) },
                    S5Action::Stop,
                )
            }
        },
        (S5State::SkipDomainLen, S5Event::Bytes(b)) => {
            let need = b[0] as usize + 2;
            (S5State::SkipBound { need }, S5Action::ReadUpstream(need))
        },
        (S5State::SkipBound { need: _ }, S5Event::Bytes(_)) => (
            S5State::Relaying,
            S5Action::WriteClientThenRelay(success_reply()),
        ),
        _ => vstd::pervasive::unreached(),
    }
}

/// The hexadecimal digit character for a value below sixteen, lower case.
pub open spec fn hex_digit_char(d: int) -> char {
    if d < 10 {
        crate::text::dec_digit_char(d)
    } else if d == 10 { 'a' } else if d == 11 { 'b' } else if d == 12 { 'c' }
    else if d == 13 { 'd' } else if d == 14 { 'e' } else { 'f' }
}

/// A byte as two lower-case hexadecimal digits.
pub open spec fn byte_hex_chars(b: u8) -> Seq<char> {
    seq![hex_digit_char(b as int / 16), hex_digit_char(b as int % 16)]
}

/// Four IPv4 octets as dotted decimal text.
pub open spec fn ipv4_chars(b: Seq<u8>) -> Seq<char> {
    dec_chars(b[0] as int) + "."@ + dec_chars(b[1] as int) + "."@
        + dec_chars(b[2] as int) + "."@ + dec_chars(b[3] as int)
}

/// The `i`-th of the eight IPv6 groups: two bytes as four hex digits.
pub open spec fn ipv6_group(b: Seq<u8>, i: int) -> Seq<char> {
    byte_hex_chars(b[2 * i]) + byte_hex_chars(b[2 * i + 1])
}

/// The first `n` IPv6 groups, colon-separated.
pub open spec fn ipv6_prefix(b: Seq<u8>, n: int) -> Seq<char>
    decreases n,
{
    if n <= 0 {
        Seq::empty()
    } else if n == 1 {
        ipv6_group(b, 0)
    } else {
        ipv6_prefix(b, n - 1) + ":"@ + ipv6_group(b, n - 1)
    }
}

/// Sixteen IPv6 octets as eight colon-separated groups of four lower-case
/// hex digits.
pub open spec fn ipv6_chars(b: Seq<u8>) -> Seq<char> {
    ipv6_prefix(b, 8)
}

/// A one-character string slice for a hex digit value.
fn hex_digit_str(d: u8) -> (r: &'static str)
    requires
        d < 16,
    ensures
        r@ =~= seq![hex_digit_char(d as int)],
{
    if d < 10 {
        crate::text::dec_digit_str(d as u16)
    } else {
        proof {
            reveal_strlit("a");
            reveal_strlit("b");
            reveal_strlit("c");
            reveal_strlit("d");
            reveal_strlit("e");
            reveal_strlit("f");
        }
        match d {
            10 => "a",
            11 => "b",
            12 => "c",
            13 => "d",
            14 => "e",
            _ => "f",
        }
    }
}

impl Socks5Addr {
    /// The address as text: dotted decimal for IPv4, the domain itself, or
    /// eight colon-separated hex groups for IPv6.
    pub fn text(&self) -> (r: String)
        requires
            addr_wf(self@),
        ensures
            self@ matches AddrView::V4(b) ==> r@ == ipv4_chars(b),
            self@ matches AddrView::Domain(d) ==> r@ == decode_utf8(d),
            self@ matches AddrView::V6(b) ==> r@ == ipv6_chars(b),
    {
        match self {
            Socks5Addr::V4(b) => {
                let mut out = String::new();
                append_dec(&mut out, b[0] as u16);
                out.append(".");
                append_dec(&mut out, b[1] as u16);
                out.append(".");
                append_dec(&mut out, b[2] as u16);
                out.append(".");
                append_dec(&mut out, b[3] as u16);
                proof {
                    assert(out@ =~= ipv4_chars(b@));
                }
                out
            },
            Socks5Addr::Domain(d) => {
                match bytes_to_utf8_string(d.clone()) {
                    Some(t) => t,
                    None => {
                        proof {
                            assert(false);
                        }
                        String::new()
                    },
                }
            },
            Socks5Addr::V6(b) => {
                let mut out = String::new();
                let mut i: usize = 0;
                while i < 8
                    invariant
                        i <= 8,
                        b@.len() == 16,
                        out@ == ipv6_prefix(b@, i as int),
                    decreases 8 - i,
                {
                    if i > 0 {
                        out.append(":");
                    }
                    let hi = b[2 * i];
                    let lo = b[2 * i + 1];
                    out.append(hex_digit_str(hi / 16));
                    out.append(hex_digit_str(hi % 16));
                    out.append(hex_digit_str(lo / 16));
                    out.append(hex_digit_str(lo % 16));
                    proof {
                        assert(out@ =~= ipv6_prefix(b@, i + 1));
                    }
                    i += 1;
                }
                out
            },
        }
    }
}

} // verus!

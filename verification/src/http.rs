//! The HTTP tunnel handler: request-head framing, parsing through
//! `httparse`, CONNECT target validation, and the session state machine
//! that an executor drives against the client and upstream sockets.
//!
//! Two deliberate simplifications of the legacy wire behaviour are kept:
//! the head is framed by short reads, which misjudges a head whose length
//! is an exact multiple of the chunk size, and the upstream's response to
//! a forwarded CONNECT line is relayed without being validated first.

use vstd::prelude::*;
use vstd::string::StrSliceExecFns;
use vstd::utf8::encode_utf8;

use crate::errors::ProxyError;
use crate::proxy::{colon_count, colon_count_upto};
use crate::text::{push_all, str_eq_str};

verus! {

/// The size of the chunks the head is read in; a read shorter than this
/// ends the head.
pub const HEAD_CHUNK: usize = 1024;

/// What `httparse` makes of a request head.
pub enum HeadParse {
    /// The request line parsed; method and path are present unless the
    /// buffer ended before them.
    Parsed { method: Option<String>, path: Option<String> },
    /// The buffer holds more header lines than the parser was given slots.
    TooManyHeaders,
    /// The bytes are not an HTTP request head.
    Malformed,
}

/// The mathematical value of a parse verdict.
pub ghost enum HeadView {
    Parsed { method: Option<Seq<char>>, path: Option<Seq<char>> },
    Malformed,
}

/// What `httparse` answers on this buffer, given room enough for its
/// headers. The verdict is a function of the bytes alone.
pub uninterp spec fn http_head_of(buf: Seq<u8>) -> HeadView;

/// The exec verdict `r` carries the mathematical verdict `h`.
pub open spec fn head_matches(r: HeadParse, h: HeadView) -> bool {
    match (r, h) {
        (
            HeadParse::Parsed { method: m1, path: p1 },
            HeadView::Parsed { method: m2, path: p2 },
        ) => {
            &&& (match (m1, m2) {
                (Some(a), Some(b)) => a@ == b,
                (None, None) => true,
                _ => false,
            })
            &&& (match (p1, p2) {
                (Some(a), Some(b)) => a@ == b,
                (None, None) => true,
                _ => false,
            })
        },
        (HeadParse::Malformed, HeadView::Malformed) => true,
        _ => false,
    }
}

/// Relies on `httparse::Request::parse`: the verdict on a buffer does not
/// depend on the header capacity, other than that `TooManyHeaders` is
/// reported exactly when the buffer holds more header lines than slots —
/// and every header line takes at least one byte, so a capacity of the
/// buffer's length always suffices. A parse that stops early for want of
/// bytes can still surface the method and path of a complete request line,
/// as the verdict does.
#[verifier::external_body]
fn parse_head_with_capacity(buf: &Vec<u8>, cap: usize) -> (r: HeadParse)
    ensures
        !(r is TooManyHeaders) ==> head_matches(r, http_head_of(buf@)),
        cap >= buf@.len() ==> !(r is TooManyHeaders),
{
    let mut headers = vec![httparse::EMPTY_HEADER; cap];
    let mut req = httparse::Request::new(&mut headers);
    match req.parse(buf.as_slice()) {
        Ok(_) => HeadParse::Parsed {
            method: req.method.map(|m| m.to_string()),
            path: req.path.map(|p| p.to_string()),
        },
        Err(httparse::Error::TooManyHeaders) => HeadParse::TooManyHeaders,
        Err(_) => HeadParse::Malformed,
    }
}

/// Parses a request head into its method and path. Starts with a modest
/// header allowance and widens it once if the head holds more headers;
/// a head that does not parse, or whose method or path is missing, is
/// `HttpParseError`.
pub fn parse_http_head(request: &Vec<u8>) -> (r: Result<(String, String), ProxyError>)
    ensures
        match http_head_of(request@) {
            HeadView::Parsed { method: Some(m), path: Some(p) } =>
                r is Ok && r.unwrap().0@ == m && r.unwrap().1@ == p,
            _ => r == Err::<(String, String), ProxyError>(ProxyError::HttpParseError),
        },
{
    let first = parse_head_with_capacity(request, 16);
    let outcome = match first {
        HeadParse::TooManyHeaders => {
            let n = request.len();
            let cap = if n > 16 { n } else { 16 };
            parse_head_with_capacity(request, cap)
        },
        other => other,
    };
    match outcome {
        HeadParse::Parsed { method, path } => {
            match (method, path) {
                (Some(m), Some(p)) => Ok((m, p)),
                _ => Err(ProxyError::HttpParseError),
            }
        },
        HeadParse::Malformed => Err(ProxyError::HttpParseError),
        HeadParse::TooManyHeaders => vstd::pervasive::unreached(),
    }
}

/// The fixed reply the client gets when the upstream cannot be reached.
pub open spec fn bad_gateway_bytes() -> Seq<u8> {
    encode_utf8("HTTP/1.1 502 Bad Gateway\r\nContent-Length: 0\r\n\r\n"@)
}

/// The raw CONNECT line sent to the upstream for a tunneled target.
pub open spec fn connect_line_chars(path: Seq<char>) -> Seq<char> {
    "CONNECT "@ + path + " HTTP/1.1\r\nHost: "@ + path + "\r\n\r\n"@
}

/// The fixed 502 reply as bytes on the wire.
pub fn bad_gateway_reply() -> (r: Vec<u8>)
    ensures
        r@ == bad_gateway_bytes(),
{
    "HTTP/1.1 502 Bad Gateway\r\nContent-Length: 0\r\n\r\n".as_bytes_vec()
}

/// How many colons `s` holds.
fn count_colons(s: &str) -> (r: usize)
    ensures
        r as int == colon_count(s@),
{
    let n = s.unicode_len();
    let mut cnt: usize = 0;
    let mut i: usize = 0;
    while i < n
        invariant
            i <= n,
            n == s@.len(),
            cnt <= i,
            cnt == colon_count_upto(s@, i as int),
        decreases n - i,
    {
        if s.get_char(i) == ':' {
            cnt += 1;
        }
        i += 1;
    }
    cnt
}

/// Where an HTTP session stands.
pub enum HttpState {
    /// Reading the request head chunk by chunk; a short chunk ends it.
    ReadingHead { got: Vec<u8> },
    /// The head parsed; awaiting the outcome of the dial to the upstream.
    Connecting { head: Vec<u8>, method: String, path: String },
    /// Both directions relay freely; the machine is done.
    Relaying,
    /// The session is over; `error` names what ended it, if anything did.
    /// Paired with the reply-writing action the failure was recovered — the
    /// client got the 502 reply and the session ends cleanly; paired with
    /// `Stop` the session aborts with that error.
    Closed { error: Option<ProxyError> },
}

/// The mathematical value of an `HttpState`.
pub ghost enum HttpStateView {
    ReadingHead(Seq<u8>),
    Connecting(Seq<u8>, Seq<char>, Seq<char>),
    Relaying,
    Closed(Option<ProxyError>),
}

impl View for HttpState {
    type V = HttpStateView;

    open spec fn view(&self) -> HttpStateView {
        match self {
            HttpState::ReadingHead { got } => HttpStateView::ReadingHead(got@),
            HttpState::Connecting { head, method, path } =>
                HttpStateView::Connecting(head@, method@, path@),
            HttpState::Relaying => HttpStateView::Relaying,
            HttpState::Closed { error } => HttpStateView::Closed(*error),
        }
    }
}

/// What the executor reports back to the machine.
pub enum HttpEvent {
    /// One chunk read from the client; shorter than `HEAD_CHUNK` means the
    /// head is over.
    Chunk(Vec<u8>),
    /// The dial to the upstream succeeded.
    Connected,
    /// The dial to the upstream failed.
    ConnectFailed,
}

/// The mathematical value of an `HttpEvent`.
pub ghost enum HttpEventView {
    Chunk(Seq<u8>),
    Connected,
    ConnectFailed,
}

impl View for HttpEvent {
    type V = HttpEventView;

    open spec fn view(&self) -> HttpEventView {
        match self {
            HttpEvent::Chunk(b) => HttpEventView::Chunk(b@),
            HttpEvent::Connected => HttpEventView::Connected,
            HttpEvent::ConnectFailed => HttpEventView::ConnectFailed,
        }
    }
}

/// What the executor must do next.
pub enum HttpAction {
    /// Read one chunk of up to `HEAD_CHUNK` bytes from the client.
    ReadChunk,
    /// Dial the chosen upstream proxy's address.
    ConnectUpstream,
    /// Write these bytes to the upstream, then relay both directions until
    /// either side closes.
    WriteUpstreamThenRelay(Vec<u8>),
    /// Write these bytes to the client and end the session cleanly.
    WriteClientThenClose(Vec<u8>),
    /// End the session; the state's error says why.
    Stop,
}

/// The mathematical value of an `HttpAction`.
pub ghost enum HttpActionView {
    ReadChunk,
    ConnectUpstream,
    WriteUpstreamThenRelay(Seq<u8>),
    WriteClientThenClose(Seq<u8>),
    Stop,
}

impl View for HttpAction {
    type V = HttpActionView;

    open spec fn view(&self) -> HttpActionView {
        match self {
            HttpAction::ReadChunk => HttpActionView::ReadChunk,
            HttpAction::ConnectUpstream => HttpActionView::ConnectUpstream,
            HttpAction::WriteUpstreamThenRelay(b) => HttpActionView::WriteUpstreamThenRelay(b@),
            HttpAction::WriteClientThenClose(b) => HttpActionView::WriteClientThenClose(b@),
            HttpAction::Stop => HttpActionView::Stop,
        }
    }
}

/// The event each state awaits: a chunk never exceeds the chunk size, and a
/// dial answers with its outcome. Terminal states await nothing.
pub open spec fn event_ok(s: HttpStateView, e: HttpEventView) -> bool {
    match s {
        HttpStateView::ReadingHead(_) =>
            e matches HttpEventView::Chunk(b) && b.len() <= HEAD_CHUNK,
        HttpStateView::Connecting(_, _, _) =>
            e == HttpEventView::Connected || e == HttpEventView::ConnectFailed,
        HttpStateView::Relaying => false,
        HttpStateView::Closed(_) => false,
    }
}

/// The transition relation of an HTTP session, exactly as the handler
/// behaves: chunks accumulate until a short read ends the head; the head
/// must parse with a method and a path; a failed dial sends the fixed 502
/// reply and ends the session cleanly; a CONNECT whose path is not a single
/// `host:port` pair aborts, a valid one sends the raw CONNECT line upstream,
/// and any other method forwards the head verbatim — then both relay.
pub open spec fn step_spec(s: HttpStateView, e: HttpEventView) -> (HttpStateView, HttpActionView) {
    match (s, e) {
        (HttpStateView::ReadingHead(got), HttpEventView::Chunk(b)) => {
            let head = got + b;
            if b.len() == HEAD_CHUNK {
                (HttpStateView::ReadingHead(head), HttpActionView::ReadChunk)
            } else {
                match http_head_of(head) {
                    HeadView::Parsed { method: Some(m), path: Some(p) } => (
                        HttpStateView::Connecting(head, m, p),
                        HttpActionView::ConnectUpstream,
                    ),
                    _ => (
                        HttpStateView::Closed(Some(ProxyError::HttpParseError)),
                        HttpActionView::Stop,
                    ),
                }
            }
        },
        (HttpStateView::Connecting(_, _, _), HttpEventView::ConnectFailed) => (
            HttpStateView::Closed(Some(ProxyError::UpstreamConnectFailed)),
            HttpActionView::WriteClientThenClose(bad_gateway_bytes()),
        ),
        (HttpStateView::Connecting(head, m, p), HttpEventView::Connected) => {
            if m == "CONNECT"@ {
                if colon_count(p) == 1 {
                    (
                        HttpStateView::Relaying,
                        HttpActionView::WriteUpstreamThenRelay(
                            encode_utf8(connect_line_chars(p))),
                    )
                } else {
                    (
                        HttpStateView::Closed(Some(ProxyError::InvalidConnectTarget)),
                        HttpActionView::Stop,
                    )
                }
            } else {
                (HttpStateView::Relaying, HttpActionView::WriteUpstreamThenRelay(head))
            }
        },
        _ => (HttpStateView::Closed(None), HttpActionView::Stop),
    }
}

/// Drives an HTTP session one step: consumes the awaited event and hands
/// back the next state with the action the executor must perform.
pub fn http_step(s: HttpState, e: HttpEvent) -> (r: (HttpState, HttpAction))
    requires
        event_ok(s@, e@),
    ensures
        (r.0@, r.1@) == step_spec(s@, e@),
{
    match (s, e) {
        (HttpState::ReadingHead { got }, HttpEvent::Chunk(b)) => {
            let mut head = got;
            let full = b.len() == HEAD_CHUNK;
            push_all(&mut head, &b);
            if full {
                (HttpState::ReadingHead { got: head }, HttpAction::ReadChunk)
            } else {
                match parse_http_head(&head) {
                    Ok((method, path)) => (
                        HttpState::Connecting { head, method, path },
                        HttpAction::ConnectUpstream,
                    ),
                    Err(_) => (
                        HttpState::Closed { error: Some(ProxyError::HttpParseError) },
                        HttpAction::Stop,
                    ),
                }
            }
        },
        (HttpState::Connecting { head: _, method: _, path: _ }, HttpEvent::ConnectFailed) => (
            HttpState::Closed { error: Some(ProxyError::UpstreamConnectFailed) },
            HttpAction::WriteClientThenClose(bad_gateway_reply()),
        ),
        (HttpState::Connecting { head, method, path }, HttpEvent::Connected) => {
            if str_eq_str(method.as_str(), "CONNECT") {
                if count_colons(path.as_str()) == 1 {
                    let mut line = String::new();
                    line.append("CONNECT ");
                    line.append(path.as_str());
                    line.append(" HTTP/1.1\r\nHost: ");
                    line.append(path.as_str());
                    line.append("\r\n\r\n");
                    proof {
                        assert(line@ =~= connect_line_chars(path@));
                    }
                    (
                        HttpState::Relaying,
                        HttpAction::WriteUpstreamThenRelay(line.as_str().as_bytes_vec()),
                    )
                } else {
                    (
                        HttpState::Closed { error: Some(ProxyError::InvalidConnectTarget) },
                        HttpAction::Stop,
                    )
                }
            } else {
                (HttpState::Relaying, HttpAction::WriteUpstreamThenRelay(head))
            }
        },
        _ => vstd::pervasive::unreached(),
    }
}

} // verus!

//! Protocols the gateway accepts, and the sniffer that classifies a fresh
//! connection from its leading bytes.

use vstd::prelude::*;
use vstd::utf8::{decode_utf8, valid_utf8};

use crate::errors::ProxyError;
use crate::text::bytes_to_utf8_string;

verus! {

/// The two wire protocols the gateway speaks with its clients, also used to
/// scope the proxy pool's candidate lists.
#[derive(Clone, Copy, Debug, PartialEq, Eq, Structural)]
pub enum Protocol {
    Http,
    Socks5,
}

/// `p` occurs at the start of `s`.
pub open spec fn is_prefix_of(p: Seq<char>, s: Seq<char>) -> bool {
    p.len() <= s.len() && forall|i: int| 0 <= i < p.len() ==> s[i] == p[i]
}

/// The text opens with one of the HTTP verbs the gateway recognises,
/// each followed by a space.
pub open spec fn starts_with_http_verb(s: Seq<char>) -> bool {
    ||| is_prefix_of("GET "@, s)
    ||| is_prefix_of("PUT "@, s)
    ||| is_prefix_of("POST "@, s)
    ||| is_prefix_of("HEAD "@, s)
    ||| is_prefix_of("DELETE "@, s)
    ||| is_prefix_of("CONNECT "@, s)
}

/// How a fresh connection's peeked bytes classify: SOCKS5 when the first
/// byte is the SOCKS version 5, HTTP when the bytes are UTF-8 text opening
/// with a recognised verb; anything else (including fewer than two bytes)
/// is refused.
pub open spec fn classify_spec(b: Seq<u8>) -> Result<Protocol, ProxyError> {
    if b.len() >= 2 && b[0] == 5u8 {
        Ok(Protocol::Socks5)
    } else if b.len() >= 2 && valid_utf8(b) && starts_with_http_verb(decode_utf8(b)) {
        Ok(Protocol::Http)
    } else {
        Err(ProxyError::ProtocolDetectionFailed)
    }
}

/// Does `s` start with the literal prefix `p`?
fn str_has_prefix(s: &str, p: &str) -> (r: bool)
    ensures
        r == is_prefix_of(p@, s@),
{
    let pn = p.unicode_len();
    let sn = s.unicode_len();
    if pn > sn {
        return false;
    }
    let mut i: usize = 0;
    while i < pn
        invariant
            i <= pn,
            pn == p@.len(),
            pn <= sn == s@.len(),
            forall|j: int| 0 <= j < i ==> s@[j] == p@[j],
        decreases pn - i,
    {
        if s.get_char(i) != p.get_char(i) {
            return false;
        }
        i += 1;
    }
    true
}

/// Classifies the peeked leading bytes of a connection without consuming
/// them. The caller hands over whatever prefix (up to a few bytes) it could
/// peek; the bytes stay on the socket for the chosen handler.
pub fn check_proxy_protocol(buf: &Vec<u8>) -> (r: Result<Protocol, ProxyError>)
    ensures
        r == classify_spec(buf@),
{
    if buf.len() >= 2 {
        if buf[0] == 5u8 {
            return Ok(Protocol::Socks5);
        }
        if let Some(text) = bytes_to_utf8_string(buf.clone()) {
            let t = text.as_str();
            if str_has_prefix(t, "GET ") || str_has_prefix(t, "PUT ")
                || str_has_prefix(t, "POST ") || str_has_prefix(t, "HEAD ")
                || str_has_prefix(t, "DELETE ") || str_has_prefix(t, "CONNECT ") {
                return Ok(Protocol::Http);
            }
        }
    }
    Err(ProxyError::ProtocolDetectionFailed)
}

} // verus!

//! The proxy value: an upstream candidate with a scheme, a host and a port,
//! read from and written back to one line of the backing list.

use vstd::prelude::*;

use crate::protocol::Protocol;
use crate::text::{append_dec, dec_chars, parse_u16_spec, parse_u16_range, str_eq_str};

verus! {

/// An upstream proxy candidate. Immutable once parsed.
#[derive(Debug)]
pub struct Proxy {
    pub scheme: Protocol,
    pub host: String,
    pub port: u16,
}

/// The mathematical value of a `Proxy`.
pub ghost struct ProxyView {
    pub scheme: Protocol,
    pub host: Seq<char>,
    pub port: u16,
}

impl View for Proxy {
    type V = ProxyView;

    open spec fn view(&self) -> ProxyView {
        ProxyView { scheme: self.scheme, host: self.host@, port: self.port }
    }
}

impl DeepView for Proxy {
    type V = ProxyView;

    open spec fn deep_view(&self) -> ProxyView {
        self@
    }
}

impl Clone for Proxy {
    fn clone(&self) -> (r: Self)
        ensures
            r@ == self@,
    {
        Proxy { scheme: self.scheme, host: self.host.clone(), port: self.port }
    }
}

/// The number of colons among the first `n` characters of `s`.
pub open spec fn colon_count_upto(s: Seq<char>, n: int) -> int
    decreases n,
{
    if n <= 0 {
        0
    } else {
        colon_count_upto(s, n - 1) + if s[n - 1] == ':' { 1int } else { 0int }
    }
}

/// The number of colons in `s`.
pub open spec fn colon_count(s: Seq<char>) -> int {
    colon_count_upto(s, s.len() as int)
}

/// The position of the colon that `k` colons precede.
pub open spec fn nth_colon(s: Seq<char>, k: int) -> int {
    choose|i: int| 0 <= i < s.len() && s[i] == ':' && colon_count_upto(s, i) == k
}

proof fn lemma_colon_count_monotone(s: Seq<char>, i: int, j: int)
    requires
        0 <= i <= j,
    ensures
        colon_count_upto(s, i) <= colon_count_upto(s, j),
    decreases j - i,
{
    if i < j {
        lemma_colon_count_monotone(s, i, j - 1);
    }
}

/// A colon at position `i` with exactly `k` colons before it is the one
/// `nth_colon` names.
proof fn lemma_nth_colon(s: Seq<char>, i: int, k: int)
    requires
        0 <= i < s.len(),
        s[i] == ':',
        colon_count_upto(s, i) == k,
    ensures
        nth_colon(s, k) == i,
{
    assert(0 <= i < s.len() && s[i] == ':' && colon_count_upto(s, i) == k);
    let i2 = nth_colon(s, k);
    assert(0 <= i2 < s.len() && s[i2] == ':' && colon_count_upto(s, i2) == k);
    if i < i2 {
        assert(colon_count_upto(s, i + 1) == k + 1);
        lemma_colon_count_monotone(s, i + 1, i2);
        assert(false);
    }
    if i2 < i {
        assert(colon_count_upto(s, i2 + 1) == k + 1);
        lemma_colon_count_monotone(s, i2 + 1, i);
        assert(false);
    }
}

proof fn lemma_no_colon_upto_range(s: Seq<char>, a: int, b: int)
    requires
        0 <= a <= b <= s.len(),
        forall|j: int| a <= j < b ==> #[trigger] s[j] != ':',
    ensures
        colon_count_upto(s, b) == colon_count_upto(s, a),
    decreases b - a,
{
    if a < b {
        lemma_no_colon_upto_range(s, a, b - 1);
    }
}

proof fn lemma_http_chars()
    ensures
        "http"@.len() == 4,
        "http"@[0] == 'h',
        "http"@[1] == 't',
        "http"@[2] == 't',
        "http"@[3] == 'p',
{
    reveal_strlit("http");
}

proof fn lemma_socks5_chars()
    ensures
        "socks5"@.len() == 6,
        "socks5"@[0] == 's',
        "socks5"@[1] == 'o',
        "socks5"@[2] == 'c',
        "socks5"@[3] == 'k',
        "socks5"@[4] == 's',
        "socks5"@[5] == '5',
{
    reveal_strlit("socks5");
}

proof fn lemma_marker_chars()
    ensures
        "://"@.len() == 3,
        "://"@[0] == ':',
        "://"@[1] == '/',
        "://"@[2] == '/',
        ":"@.len() == 1,
        ":"@[0] == ':',
{
    reveal_strlit("://");
    reveal_strlit(":");
}

proof fn lemma_colon_exists(s: Seq<char>, n: int, k: int)
    requires
        0 <= n <= s.len(),
        0 <= k < colon_count_upto(s, n),
    ensures
        exists|i: int| 0 <= i < n && s[i] == ':' && colon_count_upto(s, i) == k,
    decreases n,
{
    if colon_count_upto(s, n - 1) > k {
        lemma_colon_exists(s, n - 1, k);
    } else {
        assert(s[n - 1] == ':' && colon_count_upto(s, n - 1) == k);
    }
}

/// The port a textual port field denotes: its decimal value, or 80 where the
/// field is not a sixteen-bit decimal number.
pub open spec fn port_or_default(t: Seq<char>) -> u16 {
    match parse_u16_spec(t) {
        Some(p) => p,
        None => 80u16,
    }
}

/// How one line of the backing list reads as a proxy.
///
/// With two colons the line is `scheme://host:port`: the scheme must be
/// `http` or `socks5` and the `//` marker must follow the first colon.
/// With one colon it is `host:port` and the scheme defaults to HTTP. Any
/// other shape does not parse. An unparsable port field defaults to
/// port 80.
pub open spec fn parse_proxy_spec(s: Seq<char>) -> Option<ProxyView> {
    if colon_count(s) == 2 {
        let c1 = nth_colon(s, 0);
        let c2 = nth_colon(s, 1);
        let scheme_part = s.subrange(0, c1);
        let scheme = if scheme_part == "http"@ {
            Some(Protocol::Http)
        } else if scheme_part == "socks5"@ {
            Some(Protocol::Socks5)
        } else {
            None
        };
        match scheme {
            Some(sch) => if c2 - c1 >= 3 && s[c1 + 1] == '/' && s[c1 + 2] == '/' {
                Some(ProxyView {
                    scheme: sch,
                    host: s.subrange(c1 + 3, c2),
                    port: port_or_default(s.subrange(c2 + 1, s.len() as int)),
                })
            } else {
                None
            },
            None => None,
        }
    } else if colon_count(s) == 1 {
        let c1 = nth_colon(s, 0);
        Some(ProxyView {
            scheme: Protocol::Http,
            host: s.subrange(0, c1),
            port: port_or_default(s.subrange(c1 + 1, s.len() as int)),
        })
    } else {
        None
    }
}

/// The scheme's name as it appears in a normalized entry.
pub open spec fn scheme_chars(p: Protocol) -> Seq<char> {
    match p {
        Protocol::Http => "http"@,
        Protocol::Socks5 => "socks5"@,
    }
}

/// The normalized `scheme://host:port` form of a proxy.
pub open spec fn show_chars(v: ProxyView) -> Seq<char> {
    scheme_chars(v.scheme) + "://"@ + v.host + ":"@ + dec_chars(v.port as int)
}

/// The `host:port` form used to reach the proxy itself.
pub open spec fn address_chars(v: ProxyView) -> Seq<char> {
    v.host + ":"@ + dec_chars(v.port as int)
}

/// Law: a host that parsing produced names no colon — the colons of its
/// line bound it on both sides — so the round trip below applies to every
/// proxy that came from the backing list.
pub proof fn lemma_parsed_host_colon_free(s: Seq<char>)
    requires
        parse_proxy_spec(s) is Some,
    ensures
        forall|j: int| 0 <= j < parse_proxy_spec(s).unwrap().host.len()
            ==> #[trigger] parse_proxy_spec(s).unwrap().host[j] != ':',
{
    let host = parse_proxy_spec(s).unwrap().host;
    if colon_count(s) == 2 {
        lemma_colon_exists(s, s.len() as int, 0);
        lemma_colon_exists(s, s.len() as int, 1);
        let c1 = nth_colon(s, 0);
        let c2 = nth_colon(s, 1);
        assert(0 <= c1 < s.len() && s[c1] == ':' && colon_count_upto(s, c1) == 0);
        assert(0 <= c2 < s.len() && s[c2] == ':' && colon_count_upto(s, c2) == 1);
        assert(colon_count_upto(s, c1 + 1) == 1);
        lemma_colon_count_monotone(s, c1 + 1, c2);
        assert(c1 < c2);
        assert forall|j: int| 0 <= j < host.len() implies #[trigger] host[j] != ':' by {
            let p = c1 + 3 + j;
            assert(host[j] == s[p]);
            if s[p] == ':' {
                lemma_colon_count_monotone(s, c1 + 1, p);
                assert(colon_count_upto(s, p + 1) >= 2);
                lemma_colon_count_monotone(s, p + 1, c2);
                assert(false);
            }
        }
    } else {
        lemma_colon_exists(s, s.len() as int, 0);
        let c1 = nth_colon(s, 0);
        assert(0 <= c1 < s.len() && s[c1] == ':' && colon_count_upto(s, c1) == 0);
        assert forall|j: int| 0 <= j < host.len() implies #[trigger] host[j] != ':' by {
            assert(host[j] == s[j]);
            if s[j] == ':' {
                lemma_colon_count_monotone(s, 0, j);
                assert(colon_count_upto(s, j + 1) >= 1);
                lemma_colon_count_monotone(s, j + 1, c1);
                assert(false);
            }
        }
    }
}

/// Law: the backing file is stable — the normalized line `show` writes
/// for a proxy parses back as exactly that proxy, provided the host
/// names no colon (a host that came from parsing never does).
pub proof fn lemma_show_parse_round_trip(v: ProxyView)
    requires
        forall|j: int| 0 <= j < v.host.len() ==> #[trigger] v.host[j] != ':',
    ensures
        parse_proxy_spec(show_chars(v)) == Some(v),
{
    let sch = scheme_chars(v.scheme);
    let s = show_chars(v);
    let digits = crate::text::dec_chars(v.port as int);
    crate::text::lemma_dec_chars_value(v.port as int);
    lemma_http_chars();
    lemma_socks5_chars();
    lemma_marker_chars();
    let c1 = sch.len() as int;
    let h = v.host.len() as int;
    let c2 = c1 + 3 + h;
    let n = s.len() as int;
    assert(n == c2 + 1 + digits.len());
    assert(s[c1] == ':');
    assert(s[c2] == ':');
    assert forall|j: int| 0 <= j < c1 implies s[j] != ':' by {
        assert(s[j] == sch[j]);
        match v.scheme {
            Protocol::Http => {
                if j == 0 {
                } else if j == 1 {
                } else if j == 2 {
                } else {
                    assert(j == 3);
                }
            },
            Protocol::Socks5 => {
                if j == 0 {
                } else if j == 1 {
                } else if j == 2 {
                } else if j == 3 {
                } else if j == 4 {
                } else {
                    assert(j == 5);
                }
            },
        }
    }
    lemma_no_colon_upto_range(s, 0, c1);
    assert(colon_count_upto(s, c1 + 1) == 1);
    assert forall|j: int| c1 + 1 <= j < c2 implies s[j] != ':' by {
        if j == c1 + 1 {
            assert(s[j] == '/');
        } else if j == c1 + 2 {
            assert(s[j] == '/');
        } else {
            assert(s[j] == v.host[j - (c1 + 3)]);
        }
    }
    lemma_no_colon_upto_range(s, c1 + 1, c2);
    assert(colon_count_upto(s, c2 + 1) == 2);
    assert forall|j: int| c2 + 1 <= j < n implies s[j] != ':' by {
        assert(s[j] == digits[j - (c2 + 1)]);
        assert(crate::text::is_dec_digit(digits[j - (c2 + 1)]));
    }
    lemma_no_colon_upto_range(s, c2 + 1, n);
    assert(colon_count(s) == 2);
    lemma_nth_colon(s, c1, 0);
    lemma_nth_colon(s, c2, 1);
    let scheme_part = s.subrange(0, c1);
    match v.scheme {
        Protocol::Http => {
            assert(scheme_part =~= "http"@);
        },
        Protocol::Socks5 => {
            assert(scheme_part =~= "socks5"@);
            assert(scheme_part.len() != "http"@.len());
        },
    }
    assert(s.subrange(c1 + 3, c2) =~= v.host);
    let t = s.subrange(c2 + 1, n);
    assert(t =~= digits);
    assert(crate::text::is_dec_digit(digits[0]));
    assert(digits[0] != '+');
    assert(crate::text::parse_u16_spec(t) == Some(v.port));
    assert(parse_proxy_spec(s) == Some(
        ProxyView { scheme: v.scheme, host: v.host, port: v.port }));
}

impl Proxy {
    pub fn new(scheme: Protocol, host: String, port: u16) -> (r: Self)
        ensures
            r@ == (ProxyView { scheme, host: host@, port }),
    {
        Proxy { scheme, host, port }
    }

    /// Reads one backing-list line as a proxy; `None` where the line does
    /// not parse.
    pub fn from(s: &str) -> (r: Option<Proxy>)
        ensures
            r is Some <==> parse_proxy_spec(s@) is Some,
            r is Some ==> r.unwrap()@ == parse_proxy_spec(s@).unwrap(),
    {
        let n = s.unicode_len();
        let mut cnt: usize = 0;
        let mut c1: usize = 0;
        let mut c2: usize = 0;
        let mut i: usize = 0;
        while i < n
            invariant
                i <= n,
                n == s@.len(),
                cnt <= i,
                cnt == colon_count_upto(s@, i as int),
                cnt >= 1 ==> c1 < i && s@[c1 as int] == ':'
                    && colon_count_upto(s@, c1 as int) == 0,
                cnt >= 2 ==> c1 < c2 < i && s@[c2 as int] == ':'
                    && colon_count_upto(s@, c2 as int) == 1,
            decreases n - i,
        {
            if s.get_char(i) == ':' {
                if cnt == 0 {
                    c1 = i;
                } else if cnt == 1 {
                    c2 = i;
                }
                cnt += 1;
            }
            i += 1;
        }
        if cnt == 2 {
            proof {
                lemma_nth_colon(s@, c1 as int, 0);
                lemma_nth_colon(s@, c2 as int, 1);
            }
            let scheme_str = s.substring_char(0, c1);
            let scheme = if str_eq_str(scheme_str, "http") {
                Protocol::Http
            } else if str_eq_str(scheme_str, "socks5") {
                Protocol::Socks5
            } else {
                return None;
            };
            if c2 - c1 < 3 {
                return None;
            }
            if s.get_char(c1 + 1) != '/' || s.get_char(c1 + 2) != '/' {
                return None;
            }
            let host = s.substring_char(c1 + 3, c2).to_owned();
            let port = match parse_u16_range(s, c2 + 1, n) {
                Some(p) => p,
                None => 80,
            };
            Some(Proxy { scheme, host, port })
        } else if cnt == 1 {
            proof {
                lemma_nth_colon(s@, c1 as int, 0);
            }
            let host = s.substring_char(0, c1).to_owned();
            let port = match parse_u16_range(s, c1 + 1, n) {
                Some(p) => p,
                None => 80,
            };
            Some(Proxy { scheme: Protocol::Http, host, port })
        } else {
            None
        }
    }

    /// The normalized `scheme://host:port` line for this proxy.
    pub fn show(&self) -> (r: String)
        ensures
            r@ == show_chars(self@),
    {
        let mut out = String::new();
        match self.scheme {
            Protocol::Http => out.append("http"),
            Protocol::Socks5 => out.append("socks5"),
        }
        out.append("://");
        out.append(self.host.as_str());
        out.append(":");
        append_dec(&mut out, self.port);
        proof {
            assert(out@ =~= show_chars(self@));
        }
        out
    }

    /// The `host:port` address the gateway dials to reach this proxy.
    pub fn address(&self) -> (r: String)
        ensures
            r@ == address_chars(self@),
    {
        let mut out = String::new();
        out.append(self.host.as_str());
        out.append(":");
        append_dec(&mut out, self.port);
        proof {
            assert(out@ =~= address_chars(self@));
        }
        out
    }

    /// Does an identity probe's reply body name this proxy's host? A live
    /// candidate must echo its own declared host back.
    pub fn probe_matches(&self, body: &str) -> (r: bool)
        ensures
            r == (body@ == self@.host),
    {
        str_eq_str(body, self.host.as_str())
    }
}

} // verus!

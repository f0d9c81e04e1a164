use x_proxy_pool::protocol::Protocol;
use x_proxy_pool::proxy::Proxy;

#[test]
fn parse_full_http_entry() {
    let p = Proxy::from("http://1.2.3.4:8080").expect("entry must parse");
    assert!(matches!(p.scheme, Protocol::Http));
    assert_eq!(p.host, "1.2.3.4");
    assert_eq!(p.port, 8080);
}

#[test]
fn parse_bare_entry_defaults_to_http() {
    let p = Proxy::from("1.2.3.4:8080").expect("entry must parse");
    assert!(matches!(p.scheme, Protocol::Http));
    assert_eq!(p.host, "1.2.3.4");
    assert_eq!(p.port, 8080);
}

#[test]
fn parse_socks5_entry() {
    let p = Proxy::from("socks5://9.8.7.6:1080").expect("entry must parse");
    assert!(matches!(p.scheme, Protocol::Socks5));
    assert_eq!(p.host, "9.8.7.6");
    assert_eq!(p.port, 1080);
}

#[test]
fn parse_rejects_non_proxy_line() {
    assert!(Proxy::from("not-a-proxy-line").is_none());
}

#[test]
fn parse_rejects_unknown_scheme() {
    assert!(Proxy::from("ftp://1.2.3.4:21").is_none());
}

#[test]
fn parse_rejects_too_many_colons() {
    assert!(Proxy::from("http://1.2.3.4:80:90").is_none());
}

#[test]
fn parse_rejects_short_middle_part() {
    assert!(Proxy::from("http:x:80").is_none());
}

#[test]
fn parse_rejects_missing_slash_marker() {
    assert!(Proxy::from("http:ab:80").is_none());
    assert!(Proxy::from("http:/ab:80").is_none());
    assert!(Proxy::from("socks5:ab:1080").is_none());
}

#[test]
fn unparsable_port_defaults_to_80() {
    let p = Proxy::from("1.2.3.4:notaport").expect("entry must parse");
    assert_eq!(p.port, 80);
    let q = Proxy::from("http://1.2.3.4:99999").expect("entry must parse");
    assert_eq!(q.port, 80);
    let r = Proxy::from("1.2.3.4:").expect("entry must parse");
    assert_eq!(r.port, 80);
}

#[test]
fn port_with_plus_sign_parses_like_std() {
    let p = Proxy::from("1.2.3.4:+8080").expect("entry must parse");
    assert_eq!(p.port, 8080);
}

#[test]
fn show_normalizes_entry() {
    let p = Proxy::from("1.2.3.4:8080").expect("entry must parse");
    assert_eq!(p.show(), "http://1.2.3.4:8080");
    let q = Proxy::from("socks5://9.8.7.6:1080").expect("entry must parse");
    assert_eq!(q.show(), "socks5://9.8.7.6:1080");
}

#[test]
fn show_then_parse_round_trips() {
    let p = Proxy::new(Protocol::Socks5, "example.org".to_string(), 1080);
    let q = Proxy::from(&p.show()).expect("normalized line must parse");
    assert!(matches!(q.scheme, Protocol::Socks5));
    assert_eq!(q.host, p.host);
    assert_eq!(q.port, p.port);
    let r = Proxy::new(Protocol::Http, "h".to_string(), 1);
    let s = Proxy::from(&r.show()).expect("normalized line must parse");
    assert!(matches!(s.scheme, Protocol::Http));
    assert_eq!(s.host, "h");
    assert_eq!(s.port, 1);
}

#[test]
fn address_is_host_and_port() {
    let p = Proxy::new(Protocol::Http, "example.org".to_string(), 65535);
    assert_eq!(p.address(), "example.org:65535");
    let q = Proxy::new(Protocol::Socks5, "h".to_string(), 0);
    assert_eq!(q.address(), "h:0");
}

#[test]
fn probe_matches_exact_host_only() {
    let p = Proxy::new(Protocol::Http, "1.2.3.4".to_string(), 80);
    assert!(p.probe_matches("1.2.3.4"));
    assert!(!p.probe_matches("1.2.3.5"));
    assert!(!p.probe_matches(""));
}

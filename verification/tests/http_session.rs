use x_proxy_pool::errors::ProxyError;
use x_proxy_pool::http::{
    http_step, parse_http_head, HttpAction, HttpEvent, HttpState, HEAD_CHUNK,
};

fn fresh() -> HttpState {
    HttpState::ReadingHead { got: Vec::new() }
}

fn chunk(bytes: &[u8]) -> HttpEvent {
    HttpEvent::Chunk(bytes.to_vec())
}

#[test]
fn short_chunk_ends_the_head_and_dials_the_upstream() {
    let head = b"GET http://example.org/ HTTP/1.1\r\nHost: example.org\r\n\r\n";
    let (s, a) = http_step(fresh(), chunk(head));
    assert!(matches!(a, HttpAction::ConnectUpstream));
    match s {
        HttpState::Connecting { method, path, .. } => {
            assert_eq!(method, "GET");
            assert_eq!(path, "http://example.org/");
        }
        _ => panic!("expected the dialing state"),
    }
}

#[test]
fn full_chunk_keeps_reading() {
    let filler = vec![b'A'; HEAD_CHUNK];
    let (s, a) = http_step(fresh(), HttpEvent::Chunk(filler));
    assert!(matches!(a, HttpAction::ReadChunk));
    assert!(matches!(s, HttpState::ReadingHead { .. }));
}

#[test]
fn refused_upstream_dial_sends_502_and_closes_cleanly() {
    let head = b"CONNECT example.com:443 HTTP/1.1\r\nHost: example.com:443\r\n\r\n";
    let (s, _) = http_step(fresh(), chunk(head));
    let (s, a) = http_step(s, HttpEvent::ConnectFailed);
    match a {
        HttpAction::WriteClientThenClose(reply) => {
            assert_eq!(
                reply,
                b"HTTP/1.1 502 Bad Gateway\r\nContent-Length: 0\r\n\r\n".to_vec()
            );
        }
        _ => panic!("expected the 502 reply"),
    }
    assert!(matches!(
        s,
        HttpState::Closed { error: Some(ProxyError::UpstreamConnectFailed) }
    ));
}

#[test]
fn connect_method_sends_raw_connect_line_upstream() {
    let head = b"CONNECT example.com:443 HTTP/1.1\r\nHost: example.com:443\r\n\r\n";
    let (s, _) = http_step(fresh(), chunk(head));
    let (s, a) = http_step(s, HttpEvent::Connected);
    match a {
        HttpAction::WriteUpstreamThenRelay(line) => {
            assert_eq!(
                line,
                b"CONNECT example.com:443 HTTP/1.1\r\nHost: example.com:443\r\n\r\n".to_vec()
            );
        }
        _ => panic!("expected the CONNECT line"),
    }
    assert!(matches!(s, HttpState::Relaying));
}

#[test]
fn other_methods_forward_the_head_verbatim() {
    let head = b"GET http://example.org/ HTTP/1.1\r\nHost: example.org\r\n\r\n";
    let (s, _) = http_step(fresh(), chunk(head));
    let (s, a) = http_step(s, HttpEvent::Connected);
    match a {
        HttpAction::WriteUpstreamThenRelay(sent) => assert_eq!(sent, head.to_vec()),
        _ => panic!("expected the forwarded head"),
    }
    assert!(matches!(s, HttpState::Relaying));
}

#[test]
fn connect_target_without_a_port_aborts() {
    let head = b"CONNECT example.com HTTP/1.1\r\n\r\n";
    let (s, _) = http_step(fresh(), chunk(head));
    let (s, a) = http_step(s, HttpEvent::Connected);
    assert!(matches!(a, HttpAction::Stop));
    assert!(matches!(
        s,
        HttpState::Closed { error: Some(ProxyError::InvalidConnectTarget) }
    ));
}

#[test]
fn connect_target_with_two_colons_aborts() {
    let head = b"CONNECT a:b:c HTTP/1.1\r\n\r\n";
    let (s, _) = http_step(fresh(), chunk(head));
    let (s, _) = http_step(s, HttpEvent::Connected);
    assert!(matches!(
        s,
        HttpState::Closed { error: Some(ProxyError::InvalidConnectTarget) }
    ));
}

#[test]
fn malformed_head_is_a_parse_error() {
    let (s, a) = http_step(fresh(), chunk(b"\x01\x02 nonsense\r\n\r\n"));
    assert!(matches!(a, HttpAction::Stop));
    assert!(matches!(
        s,
        HttpState::Closed { error: Some(ProxyError::HttpParseError) }
    ));
}

#[test]
fn parse_http_head_extracts_method_and_path() {
    let head = b"POST /submit HTTP/1.1\r\nHost: h\r\nContent-Type: text/plain\r\n\r\n";
    let (method, path) = parse_http_head(&head.to_vec()).expect("head must parse");
    assert_eq!(method, "POST");
    assert_eq!(path, "/submit");
}

#[test]
fn parse_http_head_tolerates_many_headers() {
    let mut head = String::from("GET / HTTP/1.1\r\n");
    for i in 0..40 {
        head.push_str(&format!("X-Filler-{i}: {i}\r\n"));
    }
    head.push_str("\r\n");
    let (method, path) = parse_http_head(&head.into_bytes()).expect("head must parse");
    assert_eq!(method, "GET");
    assert_eq!(path, "/");
}

#[test]
fn parse_http_head_rejects_garbage() {
    assert_eq!(
        parse_http_head(&b"\x00\x01\x02\r\n\r\n".to_vec()),
        Err(ProxyError::HttpParseError)
    );
}

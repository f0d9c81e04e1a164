use x_proxy_pool::errors::ProxyError;
use x_proxy_pool::protocol::{check_proxy_protocol, Protocol};

#[test]
fn socks5_version_byte_classifies_socks5() {
    let buf = vec![0x05, 0x01, 0x00];
    assert_eq!(check_proxy_protocol(&buf), Ok(Protocol::Socks5));
    assert_eq!(check_proxy_protocol(&vec![0x05, 0x02]), Ok(Protocol::Socks5));
}

#[test]
fn http_verbs_classify_http() {
    let buf: Vec<u8> = b"GET / HTTP/1.1\r\n".to_vec();
    assert_eq!(check_proxy_protocol(&buf), Ok(Protocol::Http));
    for head in ["PUT /x", "POST /x", "HEAD /x", "DELETE /", "CONNECT a"] {
        assert_eq!(
            check_proxy_protocol(&head.as_bytes().to_vec()),
            Ok(Protocol::Http),
            "{head} must classify as HTTP"
        );
    }
}

#[test]
fn unknown_prefix_fails_detection() {
    assert_eq!(
        check_proxy_protocol(&b"ZZ".to_vec()),
        Err(ProxyError::ProtocolDetectionFailed)
    );
    // The verb needs its trailing space.
    assert_eq!(
        check_proxy_protocol(&b"GETX".to_vec()),
        Err(ProxyError::ProtocolDetectionFailed)
    );
}

#[test]
fn fewer_than_two_bytes_fails_detection() {
    assert_eq!(
        check_proxy_protocol(&Vec::new()),
        Err(ProxyError::ProtocolDetectionFailed)
    );
    assert_eq!(
        check_proxy_protocol(&vec![0x05]),
        Err(ProxyError::ProtocolDetectionFailed)
    );
    assert_eq!(
        check_proxy_protocol(&vec![b'G']),
        Err(ProxyError::ProtocolDetectionFailed)
    );
}

#[test]
fn http_prefix_with_invalid_utf8_tail_fails_detection() {
    let mut buf: Vec<u8> = b"GET ".to_vec();
    buf.push(0xFF);
    assert_eq!(
        check_proxy_protocol(&buf),
        Err(ProxyError::ProtocolDetectionFailed)
    );
}

#[test]
fn error_kinds_describe_themselves() {
    assert_eq!(
        ProxyError::ProtocolDetectionFailed.describe(),
        "protocol detection failed"
    );
    assert_eq!(ProxyError::PoolEmpty.describe(), "proxy pool is empty");
    assert_eq!(ProxyError::PoolExhausted.describe(), "proxy pool is exhausted");
    assert_eq!(ProxyError::Io.describe(), "io error");
}

use x_proxy_pool::errors::ProxyError;
use x_proxy_pool::socks5::{
    encode_connect_request, failure_reply, socks5_step, success_reply, S5Action, S5Event,
    S5State, Socks5Addr,
};

fn bytes(v: &[u8]) -> S5Event {
    S5Event::Bytes(v.to_vec())
}

/// Walks a session up to the point where the upstream dial is requested,
/// for a domain target.
fn walk_to_connect(domain: &[u8], port_hi: u8, port_lo: u8) -> S5State {
    let (s, a) = socks5_step(S5State::Greeting, bytes(&[5, 1]));
    assert!(matches!(a, S5Action::ReadClient(1)));
    let (s, a) = socks5_step(s, bytes(&[0]));
    match a {
        S5Action::WriteClientThenReadClient(reply, n) => {
            assert_eq!(reply, vec![5, 0]);
            assert_eq!(n, 4);
        }
        _ => panic!("expected the no-auth reply"),
    }
    let (s, a) = socks5_step(s, bytes(&[5, 1, 0, 3]));
    assert!(matches!(a, S5Action::ReadClient(1)));
    let (s, a) = socks5_step(s, bytes(&[domain.len() as u8]));
    match a {
        S5Action::ReadClient(n) => assert_eq!(n, domain.len()),
        _ => panic!("expected a read of the domain"),
    }
    let (s, a) = socks5_step(s, S5Event::Bytes(domain.to_vec()));
    assert!(matches!(a, S5Action::ReadClient(2)));
    let (s, a) = socks5_step(s, bytes(&[port_hi, port_lo]));
    assert!(matches!(a, S5Action::ConnectUpstream));
    s
}

#[test]
fn full_domain_session_reaches_relay_with_success_reply() {
    let s = walk_to_connect(b"example.com", 1, 187);
    let (s, a) = socks5_step(s, S5Event::Connected);
    match a {
        S5Action::WriteUpstreamThenReadUpstream(hello, n) => {
            assert_eq!(hello, vec![5, 1, 0]);
            assert_eq!(n, 2);
        }
        _ => panic!("expected the upstream hello"),
    }
    let (s, a) = socks5_step(s, bytes(&[5, 0]));
    match a {
        S5Action::WriteUpstreamThenReadUpstream(req, n) => {
            let mut expected = vec![5u8, 1, 0, 3, 11];
            expected.extend_from_slice(b"example.com");
            expected.extend_from_slice(&[1, 187]); // 443 in network order
            assert_eq!(req, expected);
            assert_eq!(n, 4);
        }
        _ => panic!("expected the upstream connect request"),
    }
    let (s, a) = socks5_step(s, bytes(&[5, 0, 0, 1]));
    assert!(matches!(a, S5Action::ReadUpstream(6)));
    let (s, a) = socks5_step(s, bytes(&[0, 0, 0, 0, 0, 0]));
    match a {
        S5Action::WriteClientThenRelay(reply) => {
            assert_eq!(reply, vec![5, 0, 0, 1, 0, 0, 0, 0, 0, 0]);
        }
        _ => panic!("expected the success reply before relaying"),
    }
    assert!(matches!(s, S5State::Relaying));
}

#[test]
fn ipv4_target_round_trips_into_the_upstream_request() {
    let (s, _) = socks5_step(S5State::Greeting, bytes(&[5, 1]));
    let (s, _) = socks5_step(s, bytes(&[0]));
    let (s, a) = socks5_step(s, bytes(&[5, 1, 0, 1]));
    assert!(matches!(a, S5Action::ReadClient(4)));
    let (s, _) = socks5_step(s, bytes(&[10, 0, 0, 7]));
    let (s, _) = socks5_step(s, bytes(&[0, 80]));
    let (s, _) = socks5_step(s, S5Event::Connected);
    let (_, a) = socks5_step(s, bytes(&[5, 0]));
    match a {
        S5Action::WriteUpstreamThenReadUpstream(req, _) => {
            assert_eq!(req, vec![5, 1, 0, 1, 10, 0, 0, 7, 0, 80]);
        }
        _ => panic!("expected the upstream connect request"),
    }
}

#[test]
fn failed_upstream_dial_sends_failure_packet_and_closes_cleanly() {
    let s = walk_to_connect(b"example.com", 1, 187);
    let (s, a) = socks5_step(s, S5Event::ConnectFailed);
    match a {
        S5Action::WriteClientThenClose(reply) => {
            assert_eq!(reply, vec![5, 4, 0, 1, 0, 0, 0, 0, 0, 0]);
        }
        _ => panic!("expected the failure reply"),
    }
    assert!(matches!(
        s,
        S5State::Closed { error: Some(ProxyError::UpstreamConnectFailed) }
    ));
}

#[test]
fn refused_upstream_handshake_sends_failure_packet() {
    let s = walk_to_connect(b"example.com", 1, 187);
    let (s, _) = socks5_step(s, S5Event::Connected);
    let (s, a) = socks5_step(s, bytes(&[5, 0xFF]));
    match a {
        S5Action::WriteClientThenClose(reply) => assert_eq!(reply, failure_reply()),
        _ => panic!("expected the failure reply"),
    }
    assert!(matches!(
        s,
        S5State::Closed { error: Some(ProxyError::UpstreamHandshakeFailed) }
    ));
}

#[test]
fn non_zero_upstream_reply_code_sends_failure_packet() {
    let s = walk_to_connect(b"example.com", 1, 187);
    let (s, _) = socks5_step(s, S5Event::Connected);
    let (s, _) = socks5_step(s, bytes(&[5, 0]));
    let (s, a) = socks5_step(s, bytes(&[5, 4, 0, 1]));
    match a {
        S5Action::WriteClientThenClose(reply) => assert_eq!(reply, failure_reply()),
        _ => panic!("expected the failure reply"),
    }
    assert!(matches!(
        s,
        S5State::Closed { error: Some(ProxyError::UpstreamHandshakeFailed) }
    ));
}

#[test]
fn upstream_domain_bound_address_is_skipped_by_its_length() {
    let s = walk_to_connect(b"example.com", 1, 187);
    let (s, _) = socks5_step(s, S5Event::Connected);
    let (s, _) = socks5_step(s, bytes(&[5, 0]));
    let (s, a) = socks5_step(s, bytes(&[5, 0, 0, 3]));
    assert!(matches!(a, S5Action::ReadUpstream(1)));
    let (s, a) = socks5_step(s, bytes(&[4]));
    assert!(matches!(a, S5Action::ReadUpstream(6))); // 4 domain bytes + 2 port bytes
    let (s, a) = socks5_step(s, bytes(&[b'h', b'o', b's', b't', 0, 80]));
    match a {
        S5Action::WriteClientThenRelay(reply) => assert_eq!(reply, success_reply()),
        _ => panic!("expected the success reply"),
    }
    assert!(matches!(s, S5State::Relaying));
}

#[test]
fn wrong_version_or_command_aborts_with_protocol_error() {
    let (s, _) = socks5_step(S5State::Greeting, bytes(&[5, 1]));
    let (s, _) = socks5_step(s, bytes(&[0]));
    let (s, a) = socks5_step(s, bytes(&[4, 1, 0, 1]));
    assert!(matches!(a, S5Action::Stop));
    assert!(matches!(
        s,
        S5State::Closed { error: Some(ProxyError::Socks5ProtocolError) }
    ));

    let (s, _) = socks5_step(S5State::Greeting, bytes(&[5, 1]));
    let (s, _) = socks5_step(s, bytes(&[0]));
    let (s, _) = socks5_step(s, bytes(&[5, 2, 0, 1])); // BIND is unsupported
    assert!(matches!(
        s,
        S5State::Closed { error: Some(ProxyError::Socks5ProtocolError) }
    ));
}

#[test]
fn unknown_address_type_aborts_with_protocol_error() {
    let (s, _) = socks5_step(S5State::Greeting, bytes(&[5, 1]));
    let (s, _) = socks5_step(s, bytes(&[0]));
    let (s, a) = socks5_step(s, bytes(&[5, 1, 0, 9]));
    assert!(matches!(a, S5Action::Stop));
    assert!(matches!(
        s,
        S5State::Closed { error: Some(ProxyError::Socks5ProtocolError) }
    ));
}

#[test]
fn invalid_domain_utf8_aborts_with_protocol_error() {
    let (s, _) = socks5_step(S5State::Greeting, bytes(&[5, 1]));
    let (s, _) = socks5_step(s, bytes(&[0]));
    let (s, _) = socks5_step(s, bytes(&[5, 1, 0, 3]));
    let (s, _) = socks5_step(s, bytes(&[2]));
    let (s, a) = socks5_step(s, bytes(&[0xFF, 0xFE]));
    assert!(matches!(a, S5Action::Stop));
    assert!(matches!(
        s,
        S5State::Closed { error: Some(ProxyError::Socks5ProtocolError) }
    ));
}

#[test]
fn unknown_upstream_bound_address_type_aborts() {
    let s = walk_to_connect(b"example.com", 1, 187);
    let (s, _) = socks5_step(s, S5Event::Connected);
    let (s, _) = socks5_step(s, bytes(&[5, 0]));
    let (s, a) = socks5_step(s, bytes(&[5, 0, 0, 7]));
    assert!(matches!(a, S5Action::Stop));
    assert!(matches!(
        s,
        S5State::Closed { error: Some(ProxyError::Socks5ProtocolError) }
    ));
}

#[test]
fn encode_connect_request_lays_out_each_address_form() {
    let v4 = Socks5Addr::V4(vec![1, 2, 3, 4]);
    assert_eq!(
        encode_connect_request(&v4, 443),
        vec![5, 1, 0, 1, 1, 2, 3, 4, 1, 187]
    );
    let dom = Socks5Addr::Domain(b"ab".to_vec());
    assert_eq!(
        encode_connect_request(&dom, 80),
        vec![5, 1, 0, 3, 2, b'a', b'b', 0, 80]
    );
    let v6 = Socks5Addr::V6((0u8..16).collect());
    let mut expected = vec![5u8, 1, 0, 4];
    expected.extend(0u8..16);
    expected.extend_from_slice(&[0, 1]);
    assert_eq!(encode_connect_request(&v6, 1), expected);
}

#[test]
fn address_text_formats_each_form() {
    assert_eq!(Socks5Addr::V4(vec![10, 0, 0, 255]).text(), "10.0.0.255");
    assert_eq!(Socks5Addr::Domain(b"example.com".to_vec()).text(), "example.com");
    let v6 = Socks5Addr::V6(vec![
        0x20, 0x01, 0x0d, 0xb8, 0, 0, 0, 0, 0, 0, 0, 0, 0xab, 0xcd, 0xef, 0x01,
    ]);
    assert_eq!(v6.text(), "2001:0db8:0000:0000:0000:0000:abcd:ef01");
}

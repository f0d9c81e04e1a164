use x_proxy_pool::gate::AdmissionGate;
use x_proxy_pool::pool::{filter_passing, ProxyPool};
use x_proxy_pool::protocol::Protocol;
use x_proxy_pool::proxy::Proxy;

fn entry(scheme: Protocol, host: &str, port: u16) -> Proxy {
    Proxy::new(scheme, host.to_string(), port)
}

#[test]
fn sweep_where_every_probe_fails_empties_the_pool() {
    let mut pool = ProxyPool::new();
    pool.update(vec![
        entry(Protocol::Http, "a", 1),
        entry(Protocol::Socks5, "s", 9),
        entry(Protocol::Http, "b", 2),
    ]);
    let snap = pool.snapshot();
    let passed = vec![false; snap.len()];
    let written = pool
        .apply_test_results(&snap, &passed)
        .expect("non-empty snapshot must persist");
    assert!(written.is_empty());
    assert_eq!(pool.http_proxy_list.len(), 0);
    assert_eq!(pool.socks5_proxy_list.len(), 0);
}

#[test]
fn sweep_where_every_probe_passes_keeps_the_cardinality() {
    let mut pool = ProxyPool::new();
    pool.update(vec![
        entry(Protocol::Http, "a", 1),
        entry(Protocol::Socks5, "s", 9),
        entry(Protocol::Http, "b", 2),
    ]);
    let before = pool.http_proxy_list.len() + pool.socks5_proxy_list.len();
    let snap = pool.snapshot();
    let passed = vec![true; snap.len()];
    let written = pool
        .apply_test_results(&snap, &passed)
        .expect("non-empty snapshot must persist");
    assert_eq!(
        pool.http_proxy_list.len() + pool.socks5_proxy_list.len(),
        before
    );
    assert_eq!(written.len(), before);
    assert_eq!(pool.http_proxy_list[0].host, "a");
    assert_eq!(pool.http_proxy_list[1].host, "b");
    assert_eq!(pool.socks5_proxy_list[0].host, "s");
}

#[test]
fn sweep_keeps_exactly_the_passing_candidates() {
    let candidates = vec![
        entry(Protocol::Http, "a", 1),
        entry(Protocol::Http, "b", 2),
        entry(Protocol::Socks5, "s", 9),
    ];
    let kept = filter_passing(&candidates, &vec![true, false, true]);
    assert_eq!(kept.len(), 2);
    assert_eq!(kept[0].host, "a");
    assert_eq!(kept[1].host, "s");
}

#[test]
fn sweep_over_empty_pool_is_a_no_op() {
    let mut pool = ProxyPool::new();
    let snap = pool.snapshot();
    assert!(pool.apply_test_results(&snap, &Vec::new()).is_none());
    assert_eq!(pool.http_proxy_list.len(), 0);
}

#[test]
fn gate_admits_at_most_the_cap() {
    let mut gate = AdmissionGate::new(2);
    assert!(gate.try_admit());
    assert!(gate.try_admit());
    assert!(!gate.try_admit());
    assert!(!gate.try_admit());
    gate.release();
    assert!(gate.try_admit());
    assert!(!gate.try_admit());
    assert_eq!(gate.in_flight, 2);
    assert_eq!(gate.limit, 2);
}

#[test]
fn gate_with_zero_cap_admits_nothing() {
    let mut gate = AdmissionGate::new(0);
    assert!(!gate.try_admit());
    assert_eq!(gate.in_flight, 0);
}

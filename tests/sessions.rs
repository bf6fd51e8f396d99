use proxy_pulse::client::ClientSettings;
use proxy_pulse::proxy::{Proxy, ProxyAnonymity, ProxyScheme};
use proxy_pulse::scheduler::Scheduler;
use proxy_pulse::tester::SchemeSession;

#[test]
fn fourth_scheme_is_tried_after_three_full_rounds() {
    let proxy = Proxy::from_str("1.2.3.4:1080").unwrap();
    let mut session = SchemeSession::new(&proxy);
    let mut tried = Vec::new();
    let mut delays = Vec::new();
    for _ in 0..9 {
        tried.push(session.next_attempt().unwrap());
        delays.push(session.record_failure());
    }
    assert_eq!(
        tried,
        vec![
            (ProxyScheme::Http, 0),
            (ProxyScheme::Http, 1),
            (ProxyScheme::Http, 2),
            (ProxyScheme::Https, 0),
            (ProxyScheme::Https, 1),
            (ProxyScheme::Https, 2),
            (ProxyScheme::Socks5h, 0),
            (ProxyScheme::Socks5h, 1),
            (ProxyScheme::Socks5h, 2),
        ]
    );
    assert_eq!(delays, vec![100, 200, 300, 100, 200, 300, 100, 200, 300]);
    assert_eq!(session.next_attempt(), Some((ProxyScheme::Socks5, 0)));
    let result = session.record_success(&proxy, 150, ProxyAnonymity::Elite);
    assert_eq!(result.scheme(), ProxyScheme::Socks5);
    assert_eq!(result.retries(), 0);
    assert_eq!(result.score(), 100);
}

#[test]
fn retries_are_counted_within_the_succeeding_scheme() {
    let proxy = Proxy::from_str("https://h:443").unwrap();
    let mut session = SchemeSession::new(&proxy);
    session.record_failure();
    session.record_failure();
    assert_eq!(session.next_attempt(), Some((ProxyScheme::Https, 2)));
    let result = session.record_success(&proxy, 1500, ProxyAnonymity::Transparent);
    assert_eq!(result.retries(), 2);
    assert_eq!(result.latency_ms(), 1500);
    assert_eq!(result.anonymity(), ProxyAnonymity::Transparent);
}

#[test]
fn declared_scheme_fails_after_three_attempts() {
    let proxy = Proxy::from_str("socks4://h:1080").unwrap();
    let mut session = SchemeSession::new(&proxy);
    for i in 0..3u8 {
        assert_eq!(session.next_attempt(), Some((ProxyScheme::Socks4, i)));
        session.record_failure();
    }
    assert_eq!(session.next_attempt(), None);
}

#[test]
fn undeclared_scheme_fails_after_fifteen_attempts() {
    let proxy = Proxy::from_str("h:8080").unwrap();
    let mut session = SchemeSession::new(&proxy);
    let mut n = 0;
    while session.next_attempt().is_some() {
        session.record_failure();
        n += 1;
    }
    assert_eq!(n, 15);
}

#[test]
fn never_more_than_limit_in_flight() {
    let mut s = Scheduler::new(2);
    let mut peak = 0;
    let mut queued = 5;
    while queued > 0 || s.in_flight() > 0 {
        while queued > 0 && s.can_start() {
            s.start();
            queued -= 1;
            peak = peak.max(s.in_flight());
        }
        s.finish(queued % 2 == 0);
    }
    s.source_exhausted();
    assert_eq!(peak, 2);
    assert!(s.is_complete());
    assert_eq!(s.succeeded() + s.failed(), 5);
}

#[test]
fn a_failure_does_not_stop_the_others() {
    let mut s = Scheduler::new(1);
    s.start();
    assert!(!s.can_start());
    s.finish(false);
    assert!(s.can_start());
    s.start();
    s.finish(true);
    s.source_exhausted();
    assert!(s.is_complete());
    assert_eq!(s.failed(), 1);
    assert_eq!(s.succeeded(), 1);
}

#[test]
fn client_settings_follow_the_timeout() {
    let s = ClientSettings::for_timeout(3);
    assert_eq!(s.timeout_secs, 3);
    assert_eq!(s.pool_max_idle_per_host, 2);
    assert_eq!(s.tcp_keepalive_secs, 10);
    assert_eq!(s.pool_idle_timeout_secs, 15);
}

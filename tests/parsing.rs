use proxy_pulse::error::Error;
use proxy_pulse::proxy::{Proxy, ProxyCacheKey, ProxyScheme};
use proxy_pulse::repository::{proxy_from_line, StringProxyRepository};

fn parsed(s: &str) -> Proxy {
    match Proxy::from_str(s) {
        Ok(p) => p,
        Err(e) => panic!("{} did not parse: {}", s, e.message()),
    }
}

#[test]
fn parses_host_and_port() {
    let p = parsed("1.2.3.4:8080");
    assert_eq!(p.ip().0, "1.2.3.4");
    assert_eq!(p.port().0, "8080");
    assert_eq!(*p.scheme(), None);
    assert_eq!(p.to_canonical_string(), "1.2.3.4:8080");
}

#[test]
fn parses_scheme_host_and_port() {
    let p = parsed("socks5://proxy.example.org:1080");
    assert_eq!(p.ip().0, "proxy.example.org");
    assert_eq!(p.port().0, "1080");
    assert_eq!(*p.scheme(), Some(ProxyScheme::Socks5));
    assert_eq!(p.to_canonical_string(), "socks5://proxy.example.org:1080");
}

#[test]
fn scheme_is_matched_in_any_case() {
    let p = parsed("HTTPS://10.0.0.1:443");
    assert_eq!(*p.scheme(), Some(ProxyScheme::Https));
    assert_eq!(p.to_canonical_string(), "https://10.0.0.1:443");
    assert_eq!(ProxyScheme::parse("SoCkS5H"), Some(ProxyScheme::Socks5h));
    assert_eq!(ProxyScheme::parse("ftp"), None);
}

#[test]
fn canonical_text_parses_back_to_the_same_proxy() {
    for s in ["1.2.3.4:1", "http://h:65534", "socks4://a.b:3128", "socks5h://x:9050"] {
        let p = parsed(s);
        let again = parsed(&p.to_canonical_string());
        assert_eq!(again.ip(), p.ip());
        assert_eq!(again.port(), p.port());
        assert_eq!(again.scheme(), p.scheme());
        assert_eq!(again.to_canonical_string(), s);
    }
}

#[test]
fn port_text_is_kept_in_plain_decimal() {
    let p = parsed("h:+0080");
    assert_eq!(p.port().0, "80");
    assert_eq!(p.to_canonical_string(), "h:80");
}

#[test]
fn port_zero_is_rejected() {
    assert!(matches!(Proxy::from_str("1.2.3.4:0"), Err(Error::InvalidPort(s)) if s == "1.2.3.4:0"));
}

#[test]
fn ports_above_65534_are_rejected() {
    assert!(matches!(Proxy::from_str("h:65535"), Err(Error::InvalidPort(_))));
    assert!(matches!(Proxy::from_str("http://h:70000"), Err(Error::InvalidPort(_))));
    assert!(matches!(Proxy::from_str("h:65534"), Ok(_)));
}

#[test]
fn non_numeric_port_is_rejected() {
    assert!(matches!(Proxy::from_str("h:80a"), Err(Error::InvalidPort(_))));
    assert!(matches!(Proxy::from_str("h:"), Err(Error::InvalidPort(_))));
    assert!(matches!(Proxy::from_str("h:-1"), Err(Error::InvalidPort(_))));
}

#[test]
fn unknown_scheme_is_rejected_with_its_name() {
    assert!(matches!(Proxy::from_str("ftp://h:21"), Err(Error::InvalidScheme(s)) if s == "ftp"));
}

#[test]
fn bad_shape_is_rejected_as_invalid_address() {
    assert!(matches!(Proxy::from_str("justahost"), Err(Error::InvalidIp(s)) if s == "justahost"));
    assert!(matches!(Proxy::from_str(":8080"), Err(Error::InvalidIp(_))));
    assert!(matches!(Proxy::from_str("a:b:c"), Err(Error::InvalidIp(_))));
    assert!(matches!(Proxy::from_str(""), Err(Error::InvalidIp(_))));
}

#[test]
fn error_messages_name_the_input() {
    let e = Error::InvalidPort("h:0".to_string());
    assert_eq!(e.message(), "Invalid port in proxy 'h:0'. Port must be a number between 1 and 65534");
}

#[test]
fn all_schemes_in_priority_order() {
    assert_eq!(
        ProxyScheme::get_all_scheme(),
        vec![
            ProxyScheme::Http,
            ProxyScheme::Https,
            ProxyScheme::Socks5h,
            ProxyScheme::Socks5,
            ProxyScheme::Socks4
        ]
    );
}

#[test]
fn probe_urls_depend_on_scheme() {
    assert_eq!(ProxyScheme::Http.get_ip_check_url(), "http://httpbin.org/ip");
    assert_eq!(ProxyScheme::Socks4.get_header_test_url(), "https://httpbin.org/headers");
    assert_eq!(ProxyScheme::Https.get_test_url(), "https://ipinfo.io/ip");
}

#[test]
fn cache_keys_differ_by_scheme() {
    let p = parsed("1.2.3.4:3128");
    let a = ProxyCacheKey::for_proxy(&p, ProxyScheme::Http);
    let b = ProxyCacheKey::for_proxy(&p, ProxyScheme::Socks5);
    assert_ne!(a, b);
    assert_eq!(a.url(), "1.2.3.4:3128");
    assert_eq!(b.proxy_url(), "socks5://1.2.3.4:3128");
}

#[test]
fn inline_list_is_split_trimmed_and_filtered() {
    let repo = StringProxyRepository::new(" 1.2.3.4:80 , ,bad, socks4://h:1080,");
    assert_eq!(repo.proxies(), &vec!["1.2.3.4:80".to_string(), "bad".to_string(), "socks4://h:1080".to_string()]);
    let ps = repo.parsed_proxies();
    assert_eq!(ps.len(), 2);
    assert_eq!(ps[1].to_canonical_string(), "socks4://h:1080");
}

#[test]
fn lines_are_trimmed_and_blank_lines_skipped() {
    let p = proxy_from_line("  http://1.2.3.4:80 \r\n").unwrap();
    assert_eq!(p.to_canonical_string(), "http://1.2.3.4:80");
    assert!(proxy_from_line("   ").is_none());
    assert!(proxy_from_line("nonsense").is_none());
}

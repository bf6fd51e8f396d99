use proxy_pulse::header_analysis::{analyze_headers, analyze_lowercase_headers, classify_proxy};
use proxy_pulse::proxy::ProxyAnonymity;
use proxy_pulse::scoring::calculate_score;
use proxy_pulse::tester::assess_anonymity;

#[test]
fn fast_elite_proxy_scores_full_marks() {
    assert_eq!(calculate_score(150, 0, &ProxyAnonymity::Elite), 100);
}

#[test]
fn slow_transparent_proxy_after_three_retries_scores_23() {
    assert_eq!(calculate_score(1500, 3, &ProxyAnonymity::Transparent), 23);
}

#[test]
fn score_bands() {
    // 90 * .45 + 80 * .30 + 70 * 1.0 * .25 = 82
    assert_eq!(calculate_score(300, 1, &ProxyAnonymity::Anonymous), 82);
    // 5 * .45 + 10 * .30 + 30 * .45 * .25 = 8.625
    assert_eq!(calculate_score(5000, 9, &ProxyAnonymity::Transparent), 9);
    // 75 * .45 + 55 * .30 + 100 * .85 * .25 = 71.5
    assert_eq!(calculate_score(600, 2, &ProxyAnonymity::Elite), 72);
    // band edges: 200 and 201 ms
    assert_eq!(calculate_score(200, 0, &ProxyAnonymity::Elite), 100);
    assert_eq!(calculate_score(201, 0, &ProxyAnonymity::Elite), 96);
}

#[test]
fn same_ip_is_transparent_whatever_the_headers() {
    assert_eq!(classify_proxy("1.2.3.4", "1.2.3.4", false, false), ProxyAnonymity::Transparent);
    assert_eq!(classify_proxy("1.2.3.4", "1.2.3.4", false, true), ProxyAnonymity::Transparent);
    assert_eq!(classify_proxy("1.2.3.4", "1.2.3.4", true, false), ProxyAnonymity::Transparent);
    assert_eq!(classify_proxy("1.2.3.4", "1.2.3.4", true, true), ProxyAnonymity::Transparent);
}

#[test]
fn via_header_makes_anonymous() {
    let (t, p) = analyze_headers("{\"headers\": {\"Host\": \"httpbin.org\", \"Via\": \"1.1 squid\"}}");
    assert!(!t);
    assert!(p);
    assert_eq!(classify_proxy("1.2.3.4", "5.6.7.8", t, p), ProxyAnonymity::Anonymous);
}

#[test]
fn no_identifying_headers_is_elite() {
    let (t, p) = analyze_headers("{\"headers\": {\"Host\": \"httpbin.org\", \"Accept\": \"*/*\"}}");
    assert_eq!(classify_proxy("1.2.3.4", "5.6.7.8", t, p), ProxyAnonymity::Elite);
}

#[test]
fn forwarding_header_makes_transparent() {
    let (t, p) = analyze_headers("X-Forwarded-For: 1.2.3.4");
    assert!(t);
    assert!(p);
    assert_eq!(classify_proxy("1.2.3.4", "5.6.7.8", t, p), ProxyAnonymity::Transparent);
    assert_eq!(analyze_lowercase_headers("X-Real-IP: 1"), (false, false));
    assert_eq!(analyze_lowercase_headers("client-ip: 1"), (true, false));
    assert_eq!(analyze_lowercase_headers("proxy-connection: keep-alive"), (false, true));
}

#[test]
fn echoed_addresses_are_trimmed_before_comparison() {
    assert_eq!(assess_anonymity("1.2.3.4\n", "  1.2.3.4 ", "{}"), ProxyAnonymity::Transparent);
    assert_eq!(assess_anonymity("1.2.3.4", "5.6.7.8\n", "VIA: x"), ProxyAnonymity::Anonymous);
    assert_eq!(assess_anonymity("1.2.3.4", "5.6.7.8", "{}"), ProxyAnonymity::Elite);
}

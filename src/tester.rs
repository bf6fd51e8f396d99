use vstd::prelude::*;
use crate::header_analysis::{
    analyze_headers, classify_proxy, names_proxy_header, names_transparent_header, spec_classify,
};
use crate::proxy::{all_schemes, IpAdress, Port, Proxy, ProxyAnonymity, ProxyScheme};
use crate::scoring::{calculate_score, spec_score};
use crate::test_result::{TestResult, TestResultView};
use crate::text::{lower_of, trim, trim_of};

verus! {

/// Attempts made at each scheme before moving to the next.
pub const ATTEMPTS_PER_SCHEME: usize = 3;

/// The schemes tried for a proxy: its declared one, else all in priority order.
pub open spec fn candidate_schemes(declared: Option<ProxyScheme>) -> Seq<ProxyScheme> {
    match declared {
        Some(s) => seq![s],
        None => all_schemes(),
    }
}

/// The progress of testing one proxy: the schemes to try and how many
/// attempts have failed so far.
pub struct SessionView {
    pub schemes: Seq<ProxyScheme>,
    pub failures: nat,
}

/// The attempt that comes after `failures` failed ones: the scheme and the
/// attempt index within it; `None` once every scheme has had all its attempts.
pub open spec fn spec_next_attempt(s: SessionView) -> Option<(ProxyScheme, int)> {
    if s.failures < 3 * s.schemes.len() {
        Some((s.schemes[(s.failures / 3) as int], (s.failures % 3) as int))
    } else {
        None
    }
}

/// How long to wait after a failed attempt with index `attempt`.
pub open spec fn backoff_ms(attempt: int) -> int {
    100 * (attempt + 1)
}

/// The per-proxy scheme and retry state machine. The caller asks for the next
/// attempt, performs it, and reports a failure (then waits the returned
/// delay) or a success (which ends the test with a result).
pub struct SchemeSession {
    schemes: Vec<ProxyScheme>,
    failures: usize,
}

impl View for SchemeSession {
    type V = SessionView;

    closed spec fn view(&self) -> SessionView {
        SessionView { schemes: self.schemes@, failures: self.failures as nat }
    }
}

impl SchemeSession {
    pub closed spec fn wf(&self) -> bool {
        &&& 1 <= self.schemes@.len() <= 5
        &&& self.failures <= 3 * self.schemes@.len()
    }

    /// A session for `proxy` before any attempt.
    pub fn new(proxy: &Proxy) -> (r: SchemeSession)
        ensures
            r.wf(),
            r@ == (SessionView { schemes: candidate_schemes(proxy@.scheme), failures: 0 }),
    {
        let schemes = match proxy.scheme() {
            Some(s) => vec![*s],
            None => ProxyScheme::get_all_scheme(),
        };
        assert(schemes@ =~= candidate_schemes(proxy@.scheme));
        SchemeSession { schemes, failures: 0 }
    }

    /// The scheme and attempt index to try next, or `None` when the proxy has
    /// failed on every candidate scheme.
    pub fn next_attempt(&self) -> (r: Option<(ProxyScheme, u8)>)
        requires
            self.wf(),
        ensures
            match spec_next_attempt(self@) {
                Some((s, a)) => r == Some((s, a as u8)),
                None => r is None,
            },
    {
        if self.failures < ATTEMPTS_PER_SCHEME * self.schemes.len() {
            let scheme = self.schemes[self.failures / ATTEMPTS_PER_SCHEME];
            let attempt = (self.failures % ATTEMPTS_PER_SCHEME) as u8;
            Some((scheme, attempt))
        } else {
            None
        }
    }

    /// Records that the current attempt failed and returns the delay to wait
    /// before the next one. The retry count restarts at zero with each scheme.
    pub fn record_failure(&mut self) -> (delay_ms: u64)
        requires
            old(self).wf(),
            spec_next_attempt(old(self)@) is Some,
        ensures
            final(self).wf(),
            final(self)@ == (SessionView {
                schemes: old(self)@.schemes,
                failures: old(self)@.failures + 1,
            }),
            delay_ms == backoff_ms((old(self)@.failures % 3) as int),
    {
        let attempt = (self.failures % ATTEMPTS_PER_SCHEME) as u64;
        self.failures = self.failures + 1;
        100 * (attempt + 1)
    }

    /// The result of a successful current attempt: the scheme it used, the
    /// failed attempts before it on that scheme, and the score they give.
    pub fn record_success(&self, proxy: &Proxy, latency_ms: u128, anonymity: ProxyAnonymity) -> (r: TestResult)
        requires
            self.wf(),
            spec_next_attempt(self@) is Some,
        ensures
            ({
                let (scheme, attempt) = spec_next_attempt(self@)->0;
                r@ == TestResultView {
                    ip: proxy@.ip,
                    port: proxy@.port,
                    scheme,
                    latency_ms: latency_ms as int,
                    retries: attempt,
                    anonymity,
                    score: spec_score(latency_ms as int, attempt, anonymity),
                }
            }),
    {
        let scheme = self.schemes[self.failures / ATTEMPTS_PER_SCHEME];
        let retries = (self.failures % ATTEMPTS_PER_SCHEME) as u8;
        let score = calculate_score(latency_ms, retries, &anonymity);
        TestResult::new(
            IpAdress(proxy.ip().0.clone()),
            Port(proxy.port().0.clone()),
            scheme,
            latency_ms,
            retries,
            anonymity,
            score,
        )
    }
}

/// The anonymity level shown by one successful attempt: the address that the
/// IP-echo probe saw against the real one, both trimmed, and the headers that
/// the header-echo probe saw.
pub fn assess_anonymity(real_ip: &str, ip_echo_body: &str, header_echo_body: &str) -> (r: ProxyAnonymity)
    ensures
        r == spec_classify(
            trim_of(ip_echo_body@) == trim_of(real_ip@),
            names_transparent_header(lower_of(header_echo_body@)),
            names_proxy_header(lower_of(header_echo_body@)),
        ),
{
    let own = trim(real_ip);
    let seen = trim(ip_echo_body);
    let (transparent_hdr, proxy_hdr) = analyze_headers(header_echo_body);
    classify_proxy(own.as_str(), seen.as_str(), transparent_hdr, proxy_hdr)
}

/// For a proxy that declares no scheme, the first nine attempts are three at
/// each of the first three schemes, in priority order; the fourth scheme is
/// tried exactly after those nine failures, with its retry count starting
/// again at zero, so a success there is reported with the fourth scheme.
pub proof fn lemma_fourth_scheme_after_three_full(failures: nat)
    ensures
        ({
            let s = SessionView { schemes: candidate_schemes(None), failures };
            &&& failures < 9 ==> spec_next_attempt(s) == Some(
                (all_schemes()[(failures / 3) as int], (failures % 3) as int),
            )
            &&& (spec_next_attempt(s) matches Some((sc, a)) && sc == all_schemes()[3]) <==> 9
                <= failures < 12
            &&& 9 <= failures < 12 ==> spec_next_attempt(s) == Some(
                (ProxyScheme::Socks5, failures - 9),
            )
        }),
{
    if failures < 15 {
        assert(all_schemes()[3] == ProxyScheme::Socks5);
        assert(all_schemes()[4] != ProxyScheme::Socks5);
        assert(all_schemes()[2] != ProxyScheme::Socks5);
        assert(all_schemes()[1] != ProxyScheme::Socks5);
        assert(all_schemes()[0] != ProxyScheme::Socks5);
    }
}

/// A proxy's test runs out of attempts exactly when every attempt at every
/// candidate scheme has failed: three per scheme. Only then is it a failure,
/// and before then no result is possible without an attempt left.
pub proof fn lemma_exhausted_after_all_attempts(declared: Option<ProxyScheme>, failures: nat)
    ensures
        ({
            let s = SessionView { schemes: candidate_schemes(declared), failures };
            spec_next_attempt(s) is None <==> failures >= 3 * candidate_schemes(declared).len()
        }),
        candidate_schemes(declared).len() == if declared is Some {
            1int
        } else {
            5int
        },
{
}

} // verus!

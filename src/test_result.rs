use vstd::prelude::*;
use crate::proxy::{IpAdress, Port, ProxyAnonymity, ProxyScheme};

verus! {

/// The outcome of a successful test of one proxy.
#[derive(Debug)]
pub struct TestResult {
    ip: IpAdress,
    port: Port,
    scheme: ProxyScheme,
    latency_ms: u128,
    retries: u8,
    anonymity: ProxyAnonymity,
    score: u8,
}

/// A test result over character sequences and integers.
pub struct TestResultView {
    pub ip: Seq<char>,
    pub port: Seq<char>,
    pub scheme: ProxyScheme,
    pub latency_ms: int,
    pub retries: int,
    pub anonymity: ProxyAnonymity,
    pub score: int,
}

impl View for TestResult {
    type V = TestResultView;

    closed spec fn view(&self) -> TestResultView {
        TestResultView {
            ip: self.ip.0@,
            port: self.port.0@,
            scheme: self.scheme,
            latency_ms: self.latency_ms as int,
            retries: self.retries as int,
            anonymity: self.anonymity,
            score: self.score as int,
        }
    }
}

impl TestResult {
    pub fn new(
        ip: IpAdress,
        port: Port,
        scheme: ProxyScheme,
        latency_ms: u128,
        retries: u8,
        anonymity: ProxyAnonymity,
        score: u8,
    ) -> (r: TestResult)
        ensures
            r@ == (TestResultView {
                ip: ip.0@,
                port: port.0@,
                scheme,
                latency_ms: latency_ms as int,
                retries: retries as int,
                anonymity,
                score: score as int,
            }),
    {
        TestResult { ip, port, scheme, latency_ms, retries, anonymity, score }
    }

    pub fn scheme(&self) -> (r: ProxyScheme)
        ensures
            r == self@.scheme,
    {
        self.scheme
    }

    pub fn retries(&self) -> (r: u8)
        ensures
            r == self@.retries,
    {
        self.retries
    }

    pub fn score(&self) -> (r: u8)
        ensures
            r == self@.score,
    {
        self.score
    }

    pub fn anonymity(&self) -> (r: ProxyAnonymity)
        ensures
            r == self@.anonymity,
    {
        self.anonymity
    }

    pub fn latency_ms(&self) -> (r: u128)
        ensures
            r == self@.latency_ms,
    {
        self.latency_ms
    }
}

} // verus!

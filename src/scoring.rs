use vstd::prelude::*;
use crate::proxy::ProxyAnonymity;

verus! {

/// Points for a latency, by band.
pub open spec fn spec_latency_score(latency_ms: int) -> int {
    if latency_ms <= 200 {
        100
    } else if latency_ms <= 400 {
        90
    } else if latency_ms <= 600 {
        75
    } else if latency_ms <= 900 {
        55
    } else if latency_ms <= 1300 {
        35
    } else if latency_ms <= 2000 {
        20
    } else {
        5
    }
}

/// Points for the number of failed attempts before success.
pub open spec fn spec_reliability_score(retries: int) -> int {
    if retries == 0 {
        100
    } else if retries == 1 {
        80
    } else if retries == 2 {
        55
    } else if retries == 3 {
        30
    } else {
        10
    }
}

/// Base points of an anonymity level.
pub open spec fn spec_anonymity_base(a: ProxyAnonymity) -> int {
    match a {
        ProxyAnonymity::Elite => 100,
        ProxyAnonymity::Anonymous => 70,
        ProxyAnonymity::Transparent => 30,
    }
}

/// The latency factor applied to the anonymity points, in hundredths.
pub open spec fn spec_latency_factor(latency_ms: int) -> int {
    if latency_ms <= 500 {
        100
    } else if latency_ms <= 1000 {
        85
    } else if latency_ms <= 2000 {
        65
    } else {
        45
    }
}

/// Anonymity points in hundredths: base times latency factor.
pub open spec fn spec_anonymity_score(a: ProxyAnonymity, latency_ms: int) -> int {
    spec_anonymity_base(a) * spec_latency_factor(latency_ms)
}

/// The weighted sum `0.45 * latency + 0.30 * reliability + 0.25 * anonymity`,
/// in ten-thousandths.
pub open spec fn weighted_sum(latency_ms: int, retries: int, a: ProxyAnonymity) -> int {
    45 * 100 * spec_latency_score(latency_ms) + 30 * 100 * spec_reliability_score(retries) + 25
        * spec_anonymity_score(a, latency_ms)
}

/// `x` clamped to `[lo, hi]`.
pub open spec fn clamp(x: int, lo: int, hi: int) -> int {
    if x < lo {
        lo
    } else if x > hi {
        hi
    } else {
        x
    }
}

/// The composite score: the weighted sum rounded half up to an integer and
/// clamped to `[1, 100]`.
pub open spec fn spec_score(latency_ms: int, retries: int, a: ProxyAnonymity) -> int {
    clamp((weighted_sum(latency_ms, retries, a) + 5000) / 10000, 1, 100)
}

fn latency_score(latency_ms: u128) -> (r: u32)
    ensures
        r == spec_latency_score(latency_ms as int),
{
    if latency_ms <= 200 {
        100
    } else if latency_ms <= 400 {
        90
    } else if latency_ms <= 600 {
        75
    } else if latency_ms <= 900 {
        55
    } else if latency_ms <= 1300 {
        35
    } else if latency_ms <= 2000 {
        20
    } else {
        5
    }
}

fn reliability_score(retries: u8) -> (r: u32)
    ensures
        r == spec_reliability_score(retries as int),
{
    match retries {
        0 => 100,
        1 => 80,
        2 => 55,
        3 => 30,
        _ => 10,
    }
}

fn anonymity_score(a: &ProxyAnonymity, latency_ms: u128) -> (r: u32)
    ensures
        r == spec_anonymity_score(*a, latency_ms as int),
{
    let base: u32 = match a {
        ProxyAnonymity::Elite => 100,
        ProxyAnonymity::Anonymous => 70,
        ProxyAnonymity::Transparent => 30,
    };
    let factor: u32 = if latency_ms <= 500 {
        100
    } else if latency_ms <= 1000 {
        85
    } else if latency_ms <= 2000 {
        65
    } else {
        45
    };
    base * factor
}

/// Composite quality score of a working proxy, in `[1, 100]`.
pub fn calculate_score(latency_ms: u128, retries: u8, anonymity: &ProxyAnonymity) -> (r: u8)
    ensures
        r == spec_score(latency_ms as int, retries as int, *anonymity),
        1 <= r <= 100,
{
    let latency = latency_score(latency_ms);
    let reliability = reliability_score(retries);
    let anonymity = anonymity_score(anonymity, latency_ms);
    let total: u32 = 4500 * latency + 3000 * reliability + 25 * anonymity;
    let rounded: u32 = (total + 5000) / 10000;
    if rounded < 1 {
        1
    } else if rounded > 100 {
        100
    } else {
        rounded as u8
    }
}

} // verus!

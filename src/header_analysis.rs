use vstd::prelude::*;
use crate::proxy::ProxyAnonymity;
use crate::text::{chars_equal, chars_of, lower_of, to_lowercase};

verus! {

/// Whether `needle` occurs in `hay`.
pub open spec fn contains(hay: Seq<char>, needle: Seq<char>) -> bool {
    exists|i: int|
        0 <= i && i + needle.len() <= hay.len() && #[trigger] hay.subrange(i, i + needle.len())
            == needle
}

/// Whether lowercased header text names a header that reveals the client's address.
pub open spec fn names_transparent_header(b: Seq<char>) -> bool {
    contains(b, "x-forwarded-for"@) || contains(b, "x-real-ip"@) || contains(b, "client-ip"@)
}

/// Whether lowercased header text names a header that reveals a proxy.
pub open spec fn names_proxy_header(b: Seq<char>) -> bool {
    contains(b, "via"@) || contains(b, "forwarded"@) || contains(b, "proxy-connection"@)
}

/// The anonymity level for whether the observed address is the real one and
/// which kinds of identifying header were seen.
pub open spec fn spec_classify(same_ip: bool, transparent_hdr: bool, proxy_hdr: bool) -> ProxyAnonymity {
    if same_ip || transparent_hdr {
        ProxyAnonymity::Transparent
    } else if proxy_hdr {
        ProxyAnonymity::Anonymous
    } else {
        ProxyAnonymity::Elite
    }
}

/// Whether `hay[i..i + needle.len()]` is `needle`.
fn window_equal(hay: &Vec<char>, needle: &Vec<char>, i: usize) -> (r: bool)
    requires
        i + needle@.len() <= hay@.len(),
    ensures
        r == (hay@.subrange(i as int, i + needle@.len()) == needle@),
{
    let n = hay.len();
    let mut j: usize = 0;
    while j < needle.len()
        invariant
            n == hay@.len(),
            i + needle@.len() <= hay@.len(),
            j <= needle@.len(),
            forall|m: int| 0 <= m < j ==> hay@[i + m] == needle@[m],
        decreases needle@.len() - j,
    {
        if hay[i + j] != needle[j] {
            assert(hay@.subrange(i as int, i + needle@.len())[j as int] != needle@[j as int]);
            return false;
        }
        j = j + 1;
    }
    assert(hay@.subrange(i as int, i + needle@.len()) =~= needle@);
    true
}

/// Whether `needle` occurs in `hay`.
pub fn contains_chars(hay: &Vec<char>, needle: &Vec<char>) -> (r: bool)
    ensures
        r == contains(hay@, needle@),
{
    if needle.len() > hay.len() {
        return false;
    }
    let last = hay.len() - needle.len();
    let mut i: usize = 0;
    loop
        invariant
            last == hay@.len() - needle@.len(),
            i <= last,
            forall|j: int|
                0 <= j < i ==> #[trigger] hay@.subrange(j, j + needle@.len()) != needle@,
        decreases last - i,
    {
        if window_equal(hay, needle, i) {
            return true;
        }
        if i == last {
            return false;
        }
        i = i + 1;
    }
}

/// Whether `text` occurs in `hay`.
fn contains_text(hay: &Vec<char>, text: &str) -> (r: bool)
    ensures
        r == contains(hay@, text@),
{
    let needle = chars_of(text);
    contains_chars(hay, &needle)
}

/// Which kinds of identifying header lowercased header text names: those
/// that reveal the client's address, and those that reveal a proxy.
pub fn analyze_lowercase_headers(body: &str) -> (r: (bool, bool))
    ensures
        r == (names_transparent_header(body@), names_proxy_header(body@)),
{
    let b = chars_of(body);
    let has_transparent = contains_text(&b, "x-forwarded-for") || contains_text(&b, "x-real-ip")
        || contains_text(&b, "client-ip");
    let has_proxy = contains_text(&b, "via") || contains_text(&b, "forwarded") || contains_text(
        &b,
        "proxy-connection",
    );
    (has_transparent, has_proxy)
}

/// Which kinds of identifying header a header-echo body names, in any letter case.
pub fn analyze_headers(body: &str) -> (r: (bool, bool))
    ensures
        r == (names_transparent_header(lower_of(body@)), names_proxy_header(lower_of(body@))),
{
    let lower = to_lowercase(body);
    analyze_lowercase_headers(lower.as_str())
}

/// Classifies a proxy: transparent when it shows the real address or a header
/// that reveals it, else anonymous when a header reveals a proxy, else elite.
pub fn classify_proxy(real_ip: &str, proxy_ip: &str, has_transparent_hdr: bool, has_proxy_hdr: bool) -> (r: ProxyAnonymity)
    ensures
        r == spec_classify(proxy_ip@ == real_ip@, has_transparent_hdr, has_proxy_hdr),
{
    let actual = chars_of(real_ip);
    let seen = chars_of(proxy_ip);
    if chars_equal(&seen, &actual) || has_transparent_hdr {
        ProxyAnonymity::Transparent
    } else if has_proxy_hdr {
        ProxyAnonymity::Anonymous
    } else {
        ProxyAnonymity::Elite
    }
}

} // verus!

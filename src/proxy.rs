use vstd::prelude::*;
use crate::error::{Error, ParseFailure};
use crate::number::{
    decimal, is_digit, lemma_decimal, lemma_value_nonneg, parse_port, parse_u16, push_decimal,
};
use crate::text::{
    ascii_lower, chars_equal, chars_of, find_char, index_of, is_ascii_text, lemma_index_of,
    lemma_index_of_first, lower_of, push_char, push_text, slice_of, string_of, to_lowercase,
};

verus! {

/// The protocol a proxy endpoint is addressed by.
#[derive(Debug, Clone, Copy, PartialEq, Eq, Hash, Structural)]
pub enum ProxyScheme {
    Http,
    Https,
    Socks5h,
    Socks5,
    Socks4,
}

/// How much a proxy reveals about the client behind it, from most to least anonymous.
#[derive(Debug, Clone, Copy, PartialEq, Eq, Structural)]
pub enum ProxyAnonymity {
    Elite,
    Anonymous,
    Transparent,
}

/// The host part of a proxy endpoint.
#[derive(Debug, Clone, PartialEq, Eq, Hash)]
pub struct IpAdress(pub String);

/// The port of a proxy endpoint, as decimal text.
#[derive(Debug, Clone, PartialEq, Eq, Hash)]
pub struct Port(pub String);

/// The identity of a pooled connection: host, port and scheme. Two keys that
/// differ only in scheme are different endpoints.
#[derive(Debug, Clone, PartialEq, Eq, Hash)]
pub struct ProxyCacheKey {
    ip: IpAdress,
    port: Port,
    scheme: ProxyScheme,
}

/// The order in which schemes are tried when a proxy declares none.
pub open spec fn all_schemes() -> Seq<ProxyScheme> {
    seq![
        ProxyScheme::Http,
        ProxyScheme::Https,
        ProxyScheme::Socks5h,
        ProxyScheme::Socks5,
        ProxyScheme::Socks4,
    ]
}

/// The lowercase name of a scheme.
pub open spec fn scheme_name(s: ProxyScheme) -> Seq<char> {
    match s {
        ProxyScheme::Http => seq!['h', 't', 't', 'p'],
        ProxyScheme::Https => seq!['h', 't', 't', 'p', 's'],
        ProxyScheme::Socks5h => seq!['s', 'o', 'c', 'k', 's', '5', 'h'],
        ProxyScheme::Socks5 => seq!['s', 'o', 'c', 'k', 's', '5'],
        ProxyScheme::Socks4 => seq!['s', 'o', 'c', 'k', 's', '4'],
    }
}

/// The scheme whose lowercase name is exactly `t`.
pub open spec fn scheme_named(t: Seq<char>) -> Option<ProxyScheme> {
    if t == scheme_name(ProxyScheme::Http) {
        Some(ProxyScheme::Http)
    } else if t == scheme_name(ProxyScheme::Https) {
        Some(ProxyScheme::Https)
    } else if t == scheme_name(ProxyScheme::Socks4) {
        Some(ProxyScheme::Socks4)
    } else if t == scheme_name(ProxyScheme::Socks5) {
        Some(ProxyScheme::Socks5)
    } else if t == scheme_name(ProxyScheme::Socks5h) {
        Some(ProxyScheme::Socks5h)
    } else {
        None
    }
}

/// The scheme that `t` names in any letter case: ASCII text is lowered
/// letter by letter, other text as `str::to_lowercase` lowers it.
pub open spec fn scheme_of_text(t: Seq<char>) -> Option<ProxyScheme> {
    if is_ascii_text(t) {
        scheme_named(t.map_values(|c: char| ascii_lower(c)))
    } else {
        scheme_named(lower_of(t))
    }
}

impl ProxyScheme {
    /// Every scheme, in the order they are tried.
    pub fn get_all_scheme() -> (r: Vec<ProxyScheme>)
        ensures
            r@ == all_schemes(),
    {
        let r = vec![
            ProxyScheme::Http,
            ProxyScheme::Https,
            ProxyScheme::Socks5h,
            ProxyScheme::Socks5,
            ProxyScheme::Socks4,
        ];
        assert(r@ =~= all_schemes());
        r
    }

    /// The characters of this scheme's name.
    fn name_chars(&self) -> (r: Vec<char>)
        ensures
            r@ == scheme_name(*self),
    {
        let r = match self {
            ProxyScheme::Http => vec!['h', 't', 't', 'p'],
            ProxyScheme::Https => vec!['h', 't', 't', 'p', 's'],
            ProxyScheme::Socks5h => vec!['s', 'o', 'c', 'k', 's', '5', 'h'],
            ProxyScheme::Socks5 => vec!['s', 'o', 'c', 'k', 's', '5'],
            ProxyScheme::Socks4 => vec!['s', 'o', 'c', 'k', 's', '4'],
        };
        assert(r@ =~= scheme_name(*self));
        r
    }

    /// The lowercase name of this scheme, as used in a proxy URL.
    pub fn as_string(&self) -> (r: String)
        ensures
            r@ == scheme_name(*self),
    {
        let v = self.name_chars();
        string_of(&v, 0, v.len())
    }

    /// The scheme named by already lowercased text.
    pub fn from_lowercase(s: &str) -> (r: Option<ProxyScheme>)
        ensures
            r == scheme_named(s@),
    {
        let v = chars_of(s);
        let http = ProxyScheme::Http.name_chars();
        let https = ProxyScheme::Https.name_chars();
        let socks4 = ProxyScheme::Socks4.name_chars();
        let socks5 = ProxyScheme::Socks5.name_chars();
        let socks5h = ProxyScheme::Socks5h.name_chars();
        if chars_equal(&v, &http) {
            Some(ProxyScheme::Http)
        } else if chars_equal(&v, &https) {
            Some(ProxyScheme::Https)
        } else if chars_equal(&v, &socks4) {
            Some(ProxyScheme::Socks4)
        } else if chars_equal(&v, &socks5) {
            Some(ProxyScheme::Socks5)
        } else if chars_equal(&v, &socks5h) {
            Some(ProxyScheme::Socks5h)
        } else {
            None
        }
    }

    /// The connectivity probe for this scheme.
    pub fn get_test_url(&self) -> (r: String)
        ensures
            r@ == (if *self == ProxyScheme::Http {
                "http://example.com"@
            } else {
                "https://ipinfo.io/ip"@
            }),
    {
        match self {
            ProxyScheme::Http => "http://example.com".to_owned(),
            _ => "https://ipinfo.io/ip".to_owned(),
        }
    }

    /// The header-echo probe for this scheme.
    pub fn get_header_test_url(&self) -> (r: String)
        ensures
            r@ == (if *self == ProxyScheme::Http {
                "http://httpbin.org/headers"@
            } else {
                "https://httpbin.org/headers"@
            }),
    {
        match self {
            ProxyScheme::Http => "http://httpbin.org/headers".to_owned(),
            _ => "https://httpbin.org/headers".to_owned(),
        }
    }

    /// The IP-echo probe for this scheme.
    pub fn get_ip_check_url(&self) -> (r: String)
        ensures
            r@ == (if *self == ProxyScheme::Http {
                "http://httpbin.org/ip"@
            } else {
                "https://httpbin.org/ip"@
            }),
    {
        match self {
            ProxyScheme::Http => "http://httpbin.org/ip".to_owned(),
            _ => "https://httpbin.org/ip".to_owned(),
        }
    }

    /// The scheme named by `s`, in any letter case.
    pub fn parse(s: &str) -> (r: Option<ProxyScheme>)
        ensures
            r == scheme_of_text(s@),
    {
        let lower = to_lowercase(s);
        ProxyScheme::from_lowercase(lower.as_str())
    }
}

/// A proxy endpoint: host, port and, when one was given, its scheme.
#[derive(Debug, Clone)]
pub struct Proxy {
    ip: IpAdress,
    port: Port,
    scheme: Option<ProxyScheme>,
}

/// A proxy endpoint over character sequences.
pub struct ProxyView {
    pub ip: Seq<char>,
    pub port: Seq<char>,
    pub scheme: Option<ProxyScheme>,
}

impl View for Proxy {
    type V = ProxyView;

    closed spec fn view(&self) -> ProxyView {
        ProxyView { ip: self.ip.0@, port: self.port.0@, scheme: self.scheme }
    }
}

/// Whether `s[i..i + 3]` is the separator `://`.
pub open spec fn separator_at(s: Seq<char>, i: int) -> bool {
    0 <= i && i + 3 <= s.len() && s[i] == ':' && s[i + 1] == '/' && s[i + 2] == '/'
}

/// Index of the first `://` in `s` at or after `from`, or `s.len()` when there is none.
pub open spec fn separator_index(s: Seq<char>, from: int) -> int
    decreases s.len() - from,
{
    if from < 0 || from + 3 > s.len() {
        s.len() as int
    } else if separator_at(s, from) {
        from
    } else {
        separator_index(s, from + 1)
    }
}

/// Splits `rest` at its only `:` into host and port text; `None` unless it
/// holds exactly one.
pub open spec fn split_host_port(rest: Seq<char>) -> Option<(Seq<char>, Seq<char>)> {
    let k = index_of(rest, ':', 0);
    if k == rest.len() {
        None
    } else {
        let port = rest.subrange(k + 1, rest.len() as int);
        if index_of(port, ':', 0) < port.len() {
            None
        } else {
            Some((rest.subrange(0, k), port))
        }
    }
}

/// What parsing `s` as `scheme://host:port` or `host:port` gives.
pub open spec fn spec_parse(s: Seq<char>) -> Result<ProxyView, ParseFailure> {
    let pos = separator_index(s, 0);
    let declared = pos < s.len();
    let name = s.subrange(0, pos);
    if declared && scheme_of_text(name) is None {
        Err(ParseFailure::Scheme(name))
    } else {
        let scheme = if declared {
            scheme_of_text(name)
        } else {
            None
        };
        let rest = if declared {
            s.subrange(pos + 3, s.len() as int)
        } else {
            s
        };
        match split_host_port(rest) {
            None => Err(ParseFailure::Ip(s)),
            Some((ip, port_text)) => if ip.len() == 0 {
                Err(ParseFailure::Ip(s))
            } else {
                match parse_u16(port_text) {
                    Some(port) => if port == 0 || port > 65534 {
                        Err(ParseFailure::Port(s))
                    } else {
                        Ok(ProxyView { ip, port: decimal(port as nat), scheme })
                    },
                    None => Err(ParseFailure::Port(s)),
                }
            },
        }
    }
}

/// The text form of a proxy: `host:port`, after `scheme://` when it has one.
pub open spec fn canonical(p: ProxyView) -> Seq<char> {
    let host_port = p.ip + seq![':'] + p.port;
    match p.scheme {
        Some(sc) => scheme_name(sc) + seq![':', '/', '/'] + host_port,
        None => host_port,
    }
}

/// What every parsed proxy satisfies: a non-empty host without `:`, and a
/// port in `[1, 65534]` in plain decimal form.
pub open spec fn valid_proxy(p: ProxyView) -> bool {
    &&& p.ip.len() > 0
    &&& forall|i: int| 0 <= i < p.ip.len() ==> #[trigger] p.ip[i] != ':'
    &&& match parse_u16(p.port) {
        Some(n) => 1 <= n <= 65534 && p.port == decimal(n as nat),
        None => false,
    }
}

/// The first `://` in `v`, or `v.len()`.
fn find_separator(v: &Vec<char>) -> (r: usize)
    ensures
        r == separator_index(v@, 0),
        r <= v@.len(),
        r < v@.len() ==> r + 3 <= v@.len(),
{
    let mut i: usize = 0;
    while v.len() >= 3 && i <= v.len() - 3
        invariant
            i <= v@.len(),
            separator_index(v@, 0) == separator_index(v@, i as int),
        decreases v@.len() - i,
    {
        if v[i] == ':' && v[i + 1] == '/' && v[i + 2] == '/' {
            return i;
        }
        i = i + 1;
    }
    v.len()
}

impl Proxy {
    pub fn ip(&self) -> (r: &IpAdress)
        ensures
            r.0@ == self@.ip,
    {
        &self.ip
    }

    pub fn port(&self) -> (r: &Port)
        ensures
            r.0@ == self@.port,
    {
        &self.port
    }

    pub fn scheme(&self) -> (r: &Option<ProxyScheme>)
        ensures
            *r == self@.scheme,
    {
        &self.scheme
    }

    pub fn new(ip: IpAdress, port: Port, scheme: Option<ProxyScheme>) -> (r: Proxy)
        ensures
            r@ == (ProxyView { ip: ip.0@, port: port.0@, scheme }),
    {
        Proxy { ip, port, scheme }
    }

    /// The text form of this proxy, `scheme://host:port` or `host:port`.
    pub fn to_canonical_string(&self) -> (r: String)
        ensures
            r@ == canonical(self@),
    {
        let mut out = String::new();
        match &self.scheme {
            Some(sc) => {
                let name = sc.as_string();
                push_text(&mut out, name.as_str());
                push_char(&mut out, ':');
                push_char(&mut out, '/');
                push_char(&mut out, '/');
            },
            None => {},
        }
        push_text(&mut out, self.ip.0.as_str());
        push_char(&mut out, ':');
        push_text(&mut out, self.port.0.as_str());
        assert(out@ =~= canonical(self@));
        out
    }

    /// Parses `scheme://host:port` or `host:port`. The scheme is matched in any
    /// letter case; the host must be non-empty and hold no `:`; the port must
    /// be a number in `[1, 65534]`, kept in its plain decimal form.
    pub fn from_str(s: &str) -> (r: Result<Proxy, Error>)
        ensures
            match r {
                Ok(p) => spec_parse(s@) == Ok::<ProxyView, ParseFailure>(p@),
                Err(e) => spec_parse(s@) == Err::<ProxyView, ParseFailure>(e@),
            },
    {
        let v = chars_of(s);
        let n = v.len();
        let pos = find_separator(&v);
        let mut scheme: Option<ProxyScheme> = None;
        let mut start: usize = 0;
        if pos < n {
            let name = string_of(&v, 0, pos);
            match ProxyScheme::parse(name.as_str()) {
                Some(sc) => {
                    scheme = Some(sc);
                },
                None => {
                    return Err(Error::InvalidScheme(name));
                },
            }
            start = pos + 3;
        }
        let rest = slice_of(&v, start, n);
        assert(v@.subrange(0, n as int) =~= s@);
        assert(pos == n ==> rest@ =~= s@);
        assert(pos < n ==> scheme == scheme_of_text(s@.subrange(0, pos as int)));
        let k = find_char(&rest, ':', 0);
        if k == rest.len() {
            return Err(Error::InvalidIp(string_of(&v, 0, n)));
        }
        let port_text = slice_of(&rest, k + 1, rest.len());
        let k2 = find_char(&port_text, ':', 0);
        if k2 < port_text.len() {
            return Err(Error::InvalidIp(string_of(&v, 0, n)));
        }
        if k == 0 {
            return Err(Error::InvalidIp(string_of(&v, 0, n)));
        }
        let ip = string_of(&rest, 0, k);
        assert(split_host_port(rest@) == Some((rest@.subrange(0, k as int), port_text@)));
        match parse_port(&port_text) {
            None => Err(Error::InvalidPort(string_of(&v, 0, n))),
            Some(port) => {
                if port == 0 || port > 65534 {
                    Err(Error::InvalidPort(string_of(&v, 0, n)))
                } else {
                    let mut text = String::new();
                    push_decimal(&mut text, port);
                    Ok(Proxy::new(IpAdress(ip), Port(text), scheme))
                }
            },
        }
    }
}


/// `separator_index` is `k` when `k` holds the first `://` from `from`, and
/// the end when none is left before `k`.
proof fn lemma_separator_index(s: Seq<char>, from: int, k: int)
    requires
        0 <= from <= k,
        forall|j: int| from <= j < k ==> !separator_at(s, j),
        separator_at(s, k) || k + 3 > s.len(),
    ensures
        separator_index(s, from) == if separator_at(s, k) {
            k
        } else {
            s.len() as int
        },
    decreases k - from,
{
    if from < k {
        lemma_separator_index(s, from + 1, k);
    }
}

/// A scheme's name is lowercase ASCII without `:` and names that scheme.
proof fn lemma_scheme_name(sc: ProxyScheme)
    ensures
        scheme_name(sc).len() >= 4,
        forall|j: int| 0 <= j < scheme_name(sc).len() ==> #[trigger] scheme_name(sc)[j] != ':',
        scheme_of_text(scheme_name(sc)) == Some(sc),
{
    let name = scheme_name(sc);
    assert(is_ascii_text(name));
    assert(name.map_values(|c: char| ascii_lower(c)) =~= name);
}

/// The `host:port` part of a valid proxy splits and parses back to it.
proof fn lemma_host_port(p: ProxyView)
    requires
        valid_proxy(p),
    ensures
        ({
            let hp = p.ip + seq![':'] + p.port;
            &&& split_host_port(hp) == Some((p.ip, p.port))
            &&& hp.len() >= 3
            &&& forall|j: int| 0 <= j < hp.len() ==> #[trigger] hp[j] == ':' ==> j == p.ip.len()
            &&& hp[p.ip.len() + 1int] != '/'
        }),
{
    let hp = p.ip + seq![':'] + p.port;
    let n = parse_u16(p.port)->0;
    lemma_decimal(n as nat);
    let k = p.ip.len() as int;
    assert forall|j: int| 0 <= j < hp.len() && #[trigger] hp[j] == ':' implies j == k by {
        if j < k {
            assert(hp[j] == p.ip[j]);
        } else if j > k {
            assert(hp[j] == p.port[j - k - 1]);
            assert(is_digit(p.port[j - k - 1]));
        }
    }
    assert(hp[k + 1] == p.port[0]);
    assert(is_digit(p.port[0]));
    lemma_index_of(hp, ':', 0, k);
    let port = hp.subrange(k + 1, hp.len() as int);
    assert(port =~= p.port);
    assert forall|j: int| 0 <= j < port.len() implies port[j] != ':' by {
        assert(is_digit(p.port[j]));
    }
    lemma_index_of(port, ':', 0, port.len() as int);
    assert(hp.subrange(0, k) =~= p.ip);
}

/// Parsing the text form of a valid proxy gives back that proxy.
pub proof fn lemma_canonical_round_trip(p: ProxyView)
    requires
        valid_proxy(p),
    ensures
        spec_parse(canonical(p)) == Ok::<ProxyView, ParseFailure>(p),
{
    let hp = p.ip + seq![':'] + p.port;
    lemma_host_port(p);
    let s = canonical(p);
    match p.scheme {
        Some(sc) => {
            let name = scheme_name(sc);
            lemma_scheme_name(sc);
            let m = name.len() as int;
            assert forall|j: int| 0 <= j < m implies !separator_at(s, j) by {
                assert(s[j] == name[j]);
            }
            assert(separator_at(s, m));
            lemma_separator_index(s, 0, m);
            assert(s.subrange(0, m) =~= name);
            assert(s.subrange(m + 3, s.len() as int) =~= hp);
        },
        None => {
            let k = s.len() - 2;
            assert forall|j: int| 0 <= j < k implies !separator_at(s, j) by {
                if separator_at(s, j) {
                    assert(s[j] == ':');
                    assert(s[j + 1] == '/');
                }
            }
            lemma_separator_index(s, 0, k);
        },
    }
    let n = parse_u16(p.port)->0;
    assert(parse_u16(p.port) == Some(n));
}

/// Every proxy that parses has a host without `:` and a port in
/// `[1, 65534]`; so port 0 and ports above 65534 never parse. Its text form
/// parses back to the same proxy.
pub proof fn lemma_parse_round_trip(s: Seq<char>)
    ensures
        spec_parse(s) matches Ok(p) ==> valid_proxy(p) && spec_parse(canonical(p)) == Ok::<
            ProxyView,
            ParseFailure,
        >(p),
{
    if let Ok(p) = spec_parse(s) {
        let pos = separator_index(s, 0);
        let rest = if pos < s.len() {
            s.subrange(pos + 3, s.len() as int)
        } else {
            s
        };
        let k = index_of(rest, ':', 0);
        lemma_index_of_first(rest, ':', 0);
        assert forall|i: int| 0 <= i < p.ip.len() implies #[trigger] p.ip[i] != ':' by {
            assert(p.ip[i] == rest[i]);
        }
        let port_text = rest.subrange(k + 1, rest.len() as int);
        let n = parse_u16(port_text)->0;
        let digits = if port_text.len() > 0 && port_text[0] == '+' {
            port_text.drop_first()
        } else {
            port_text
        };
        lemma_value_nonneg(digits);
        lemma_decimal(n as nat);
        assert(parse_u16(decimal(n as nat)) == Some(n));
        lemma_canonical_round_trip(p);
    }
}

/// An endpoint key over character sequences.
pub struct CacheKeyView {
    pub ip: Seq<char>,
    pub port: Seq<char>,
    pub scheme: ProxyScheme,
}

impl View for ProxyCacheKey {
    type V = CacheKeyView;

    closed spec fn view(&self) -> CacheKeyView {
        CacheKeyView { ip: self.ip.0@, port: self.port.0@, scheme: self.scheme }
    }
}

impl ProxyCacheKey {
    pub fn new(ip: IpAdress, port: Port, scheme: ProxyScheme) -> (r: ProxyCacheKey)
        ensures
            r@ == (CacheKeyView { ip: ip.0@, port: port.0@, scheme }),
    {
        ProxyCacheKey { ip, port, scheme }
    }

    /// The key of `proxy` tried with `scheme`.
    pub fn for_proxy(proxy: &Proxy, scheme: ProxyScheme) -> (r: ProxyCacheKey)
        ensures
            r@ == (CacheKeyView { ip: proxy@.ip, port: proxy@.port, scheme }),
    {
        ProxyCacheKey::new(IpAdress(proxy.ip().0.clone()), Port(proxy.port().0.clone()), scheme)
    }

    pub fn scheme(&self) -> (r: ProxyScheme)
        ensures
            r == self@.scheme,
    {
        self.scheme
    }

    /// `host:port`.
    pub fn url(&self) -> (r: String)
        ensures
            r@ == self@.ip + seq![':'] + self@.port,
    {
        let mut out = String::new();
        push_text(&mut out, self.ip.0.as_str());
        push_char(&mut out, ':');
        push_text(&mut out, self.port.0.as_str());
        out
    }

    /// `scheme://host:port`: the address that all traffic of this endpoint's
    /// client is routed through.
    pub fn proxy_url(&self) -> (r: String)
        ensures
            r@ == scheme_name(self@.scheme) + seq![':', '/', '/'] + self@.ip + seq![':'] + self@.port,
    {
        let mut out = self.scheme.as_string();
        push_char(&mut out, ':');
        push_char(&mut out, '/');
        push_char(&mut out, '/');
        let host_port = self.url();
        push_text(&mut out, host_port.as_str());
        assert(out@ =~= scheme_name(self@.scheme) + seq![':', '/', '/'] + self@.ip + seq![':'] + self@.port);
        out
    }
}

} // verus!

use vstd::prelude::*;
use crate::text::push_text;

verus! {

/// Why a proxy string was rejected; each variant carries the offending text.
#[derive(Debug, Clone)]
pub enum Error {
    InvalidScheme(String),
    InvalidIp(String),
    InvalidPort(String),
}

/// The rejection of a proxy string, over character sequences.
pub enum ParseFailure {
    Scheme(Seq<char>),
    Ip(Seq<char>),
    Port(Seq<char>),
}

impl View for Error {
    type V = ParseFailure;

    open spec fn view(&self) -> ParseFailure {
        match self {
            Error::InvalidScheme(s) => ParseFailure::Scheme(s@),
            Error::InvalidIp(s) => ParseFailure::Ip(s@),
            Error::InvalidPort(s) => ParseFailure::Port(s@),
        }
    }
}

impl Error {
    /// A sentence that says what was wrong with the proxy text.
    pub fn message(&self) -> (r: String)
        ensures
            r@ == match self {
                Error::InvalidScheme(s) => "Unknown or unsupported proxy scheme in '"@ + s@
                    + "'. Supported schemes: http, https, socks4, socks5, socks5h."@,
                Error::InvalidIp(s) => "Invalid proxy format '"@ + s@
                    + "'. Expected format: host:port or scheme://host:port"@,
                Error::InvalidPort(s) => "Invalid port in proxy '"@ + s@
                    + "'. Port must be a number between 1 and 65534"@,
            },
    {
        let mut out = String::new();
        match self {
            Error::InvalidScheme(s) => {
                push_text(&mut out, "Unknown or unsupported proxy scheme in '");
                push_text(&mut out, s.as_str());
                push_text(&mut out, "'. Supported schemes: http, https, socks4, socks5, socks5h.");
            },
            Error::InvalidIp(s) => {
                push_text(&mut out, "Invalid proxy format '");
                push_text(&mut out, s.as_str());
                push_text(&mut out, "'. Expected format: host:port or scheme://host:port");
            },
            Error::InvalidPort(s) => {
                push_text(&mut out, "Invalid port in proxy '");
                push_text(&mut out, s.as_str());
                push_text(&mut out, "'. Port must be a number between 1 and 65534");
            },
        }
        out
    }
}

/// Why one attempt at testing a proxy failed, or that all attempts did.
#[derive(Debug, Clone, Copy, PartialEq, Eq, Structural)]
pub enum ProxyTestError {
    ConnectionFailed,
    Timeout,
    InvalidResponse,
    TestFailed,
}

} // verus!

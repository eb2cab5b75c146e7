//! The library's error type.  Errors that come from outside the library
//! (HTTP, JSON, I/O) are carried as their message text.

use crate::text::{dec_string, u64_to_decimal};
use vstd::prelude::*;

verus! {

/// Main error type for the library.
#[derive(Debug, Clone)]
pub enum Error {
    Config(String),
    MispApi(String),
    SentinelApi(String),
    Auth(String),
    RateLimit(u64),
    StixConversion(String),
    KeyVault(String),
    Http(String),
    Json(String),
    Io(String),
}

/// The text an error displays.
pub open spec fn error_text(e: Error) -> Seq<char> {
    match e {
        Error::Config(m) => "Configuration error: "@ + m@,
        Error::MispApi(m) => "MISP API error: "@ + m@,
        Error::SentinelApi(m) => "Sentinel API error: "@ + m@,
        Error::Auth(m) => "Authentication error: "@ + m@,
        Error::RateLimit(secs) => "Rate limit exceeded, retry after "@ + dec_string(secs as nat)
            + " seconds"@,
        Error::StixConversion(m) => "STIX conversion error: "@ + m@,
        Error::KeyVault(m) => "Key Vault error: "@ + m@,
        Error::Http(m) => "HTTP error: "@ + m@,
        Error::Json(m) => "JSON error: "@ + m@,
        Error::Io(m) => "IO error: "@ + m@,
    }
}

/// `prefix` followed by `m`.
fn prefixed(prefix: &str, m: &String) -> (r: String)
    ensures
        r@ == prefix@ + m@,
{
    let mut r = String::from_str(prefix);
    r.append(m.as_str());
    r
}

impl Error {
    /// The text this error displays.
    pub fn message(&self) -> (r: String)
        ensures
            r@ == error_text(*self),
    {
        match self {
            Error::Config(m) => prefixed("Configuration error: ", m),
            Error::MispApi(m) => prefixed("MISP API error: ", m),
            Error::SentinelApi(m) => prefixed("Sentinel API error: ", m),
            Error::Auth(m) => prefixed("Authentication error: ", m),
            Error::RateLimit(secs) => {
                let mut r = String::from_str("Rate limit exceeded, retry after ");
                let n = u64_to_decimal(*secs);
                r.append(n.as_str());
                r.append(" seconds");
                r
            },
            Error::StixConversion(m) => prefixed("STIX conversion error: ", m),
            Error::KeyVault(m) => prefixed("Key Vault error: ", m),
            Error::Http(m) => prefixed("HTTP error: ", m),
            Error::Json(m) => prefixed("JSON error: ", m),
            Error::Io(m) => prefixed("IO error: ", m),
        }
    }
}

} // verus!

//! Errors of the lookup process.

use vstd::prelude::*;

verus! {

/// Why a single provider attempt failed. The orchestrator recovers from these
/// by moving on to the next provider; the last one is reported if all fail.
#[derive(Debug, Clone, PartialEq, Eq)]
pub enum AttemptError {
    /// The provider answered 429: too many requests.
    TooManyRequests(String),
    /// The provider answered with a status other than 200 and 429.
    RequestStatus(String),
    /// The request did not complete (DNS, connect, timeout, body read).
    TransportError(String),
    /// The provider's reply could not be read as its expected shape.
    ParseError(String),
    /// No adapter is available for this provider.
    UnsupportedProvider(String),
}

impl AttemptError {
    /// A short human-readable description of the kind of error.
    pub fn to_string(&self) -> (r: String)
        ensures
            self is TooManyRequests ==> r@ == "Too many API requests"@,
            self is RequestStatus ==> r@ == "Request status"@,
            self is TransportError ==> r@ == "Transport error"@,
            self is ParseError ==> r@ == "Parse error"@,
            self is UnsupportedProvider ==> r@ == "Unsupported provider"@,
    {
        let text: &str = match self {
            AttemptError::TooManyRequests(_) => "Too many API requests",
            AttemptError::RequestStatus(_) => "Request status",
            AttemptError::TransportError(_) => "Transport error",
            AttemptError::ParseError(_) => "Parse error",
            AttemptError::UnsupportedProvider(_) => "Unsupported provider",
        };
        String::from_str(text)
    }
}

/// The errors a caller of a lookup can receive.
#[derive(Debug, Clone, PartialEq, Eq)]
pub enum LookupError {
    /// The provider name is not one of the known providers (the name is carried).
    UnknownProvider(String),
    /// The lookup was asked for with an empty provider list.
    NoProvider,
    /// Every allowed attempt failed; carries the last failure and the attempt count.
    ExhaustedFailure { last: AttemptError, attempts: u128 },
    /// The cache storage could not be read or written.
    CacheIoError(String),
    /// A target lookup was required but no listed provider can look up a target.
    UnsupportedTargetLookup,
}

impl LookupError {
    /// A short human-readable description of the kind of error.
    pub fn to_string(&self) -> (r: String)
        ensures
            self is UnknownProvider ==> r@ == "Unknown provider"@,
            self is NoProvider ==> r@ == "No provider given"@,
            self is ExhaustedFailure ==> r@ == "All lookup attempts failed"@,
            self is CacheIoError ==> r@ == "Cache I/O error"@,
            self is UnsupportedTargetLookup ==> r@ == "Target lookup not supported"@,
    {
        let text: &str = match self {
            LookupError::UnknownProvider(_) => "Unknown provider",
            LookupError::NoProvider => "No provider given",
            LookupError::ExhaustedFailure { .. } => "All lookup attempts failed",
            LookupError::CacheIoError(_) => "Cache I/O error",
            LookupError::UnsupportedTargetLookup => "Target lookup not supported",
        };
        String::from_str(text)
    }
}

} // verus!

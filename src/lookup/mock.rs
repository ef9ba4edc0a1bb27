//! A provider that answers without any network traffic, for tests.

use crate::error::AttemptError;
use crate::lookup::LookupProvider;
use crate::response::{IpAddress, LookupResponse};
use vstd::prelude::*;

verus! {

/// The answer of a mock provider holding the address text `ip`, given what
/// that text parsed to: the bare record for the address, or a parse error
/// carrying the text.
pub fn mock_reply(ip: &String, parsed: Option<IpAddress>) -> (r: Result<LookupResponse, AttemptError>)
    ensures
        parsed matches Some(a) ==> r == Ok::<LookupResponse, AttemptError>(
            LookupResponse::bare(a, LookupProvider::Mock(*ip)),
        ),
        parsed is None ==> r == Err::<LookupResponse, AttemptError>(AttemptError::ParseError(*ip)),
{
    match parsed {
        Some(a) => Ok(LookupResponse::new(a, LookupProvider::Mock(ip.clone()))),
        None => Err(AttemptError::ParseError(ip.clone())),
    }
}

} // verus!

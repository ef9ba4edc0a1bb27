//! Public IP lookup: a registry of geolocation providers, the normalisation of
//! their replies into one record, a single-entry response cache and the
//! orchestration that walks an ordered provider list with a retry budget.
//!
//! Everything here is plain computation over values; the HTTP round trips and
//! the cache file are driven from outside through [`orchestrator::LookupSession`].

pub mod cache;
pub mod error;
pub mod lookup;
pub mod orchestrator;
pub mod response;
pub mod text;

pub use cache::{CacheEntry, ResponseCache, DEFAULT_TTL_SECS};
pub use error::{AttemptError, LookupError};
pub use lookup::{handle_response, parse_provider, HttpReply, LookupProvider, LookupService, RequestPlan};
pub use orchestrator::{LookupRequest, LookupSession};
pub use response::{Coordinate, IpAddress, LookupResponse};

//! The liveness answer of a service.

use vstd::prelude::*;
use vstd::string::StringExecFns;
use crate::clock::current_timestamp;
use crate::identity::Service;

verus! {

/// What a service answers when asked whether it is alive.
#[derive(Debug, PartialEq, Eq)]
pub struct HealthResponse {
    pub status: String,
    pub service: String,
    /// When the answer was made, in seconds since the Unix epoch.
    pub timestamp: u64,
}

/// The answer of `service`: it is healthy, under its own name, stamped with
/// the current time.
pub fn health(service: Service) -> (response: HealthResponse)
    ensures
        response.status@ == "healthy"@,
        response.service@ == service.name_of(),
{
    HealthResponse {
        status: String::from_str("healthy"),
        service: String::from_str(service.name()),
        timestamp: current_timestamp(),
    }
}

} // verus!

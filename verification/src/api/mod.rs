//! What the service answers to its callers, built from what the services
//! found.

use vstd::prelude::*;

pub mod ens;
pub mod error;
pub mod quote;
pub mod session;

verus! {

/// The answer to a health check.
#[derive(Debug)]
pub struct HealthResponse {
    pub status: &'static str,
    pub version: &'static str,
}

/// The answer of a service that runs: status `ok`, with the version given.
pub fn health_check(version: &'static str) -> (response: HealthResponse)
    ensures
        response.status@ == "ok"@,
        response.version@ == version@,
{
    HealthResponse { status: "ok", version }
}

} // verus!

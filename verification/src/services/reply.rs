//! What came of a request that was sent out on the service's behalf.

use vstd::prelude::*;

verus! {

/// How a request to an outside service ended.
#[derive(Debug)]
pub enum Reply {
    /// The request could not be sent; holds the reason.
    Unreached(String),
    /// The service answered with a status other than success; holds the status.
    Refused(String),
    /// The service answered with success, but its answer could not be read;
    /// holds the reason.
    Garbled(String),
    /// The service answered with success; holds the body of its answer.
    Body(String),
}

} // verus!

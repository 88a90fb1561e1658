//! Names and addresses, as callers ask for them and as they are answered.

use crate::services::ens::{EnsError, EnsResult};
use crate::text::name_view;
use vstd::prelude::*;
use vstd::string::*;

verus! {

/// A name to resolve.
#[derive(Debug)]
pub struct ResolveRequest {
    pub name: String,
}

/// The answer for a name: its address and avatar, or the fault in words.
#[derive(Debug)]
pub struct ResolveResponse {
    pub name: String,
    pub address: Option<String>,
    pub avatar: Option<String>,
    pub error: Option<String>,
}

/// An address to look up.
#[derive(Debug)]
pub struct LookupRequest {
    pub address: String,
}

/// The answer for an address: its name, if it has one, or the fault in words.
#[derive(Debug)]
pub struct LookupResponse {
    pub address: String,
    pub name: Option<String>,
    pub error: Option<String>,
}

impl ResolveResponse {
    /// The answer for `name`: what was found, without an error; or, for a
    /// fault, nothing but the fault in words.
    pub fn from_outcome(name: String, outcome: Result<EnsResult, EnsError>) -> (response:
        ResolveResponse)
        ensures
            response.name@ == name@,
            match outcome {
                Ok(found) => {
                    &&& name_view(response.address) == Some(found@.address)
                    &&& name_view(response.avatar) == found@.avatar
                    &&& response.error is None
                },
                Err(fault) => {
                    &&& response.address is None
                    &&& response.avatar is None
                    &&& name_view(response.error) == Some(fault@.message())
                },
            },
    {
        match outcome {
            Ok(found) => ResolveResponse {
                name,
                address: Some(found.address),
                avatar: found.avatar,
                error: None,
            },
            Err(fault) => ResolveResponse {
                name,
                address: None,
                avatar: None,
                error: Some(fault.message()),
            },
        }
    }
}

impl LookupResponse {
    /// The answer for `address`: the name found, if any, without an error;
    /// or, for a fault, no name and the fault in words.
    pub fn from_outcome(address: String, outcome: Result<Option<String>, EnsError>) -> (response:
        LookupResponse)
        ensures
            response.address@ == address@,
            match outcome {
                Ok(name) => response.name == name && response.error is None,
                Err(fault) => response.name is None && name_view(response.error) == Some(
                    fault@.message(),
                ),
            },
    {
        match outcome {
            Ok(name) => LookupResponse { address, name, error: None },
            Err(fault) => LookupResponse { address, name: None, error: Some(fault.message()) },
        }
    }
}

} // verus!

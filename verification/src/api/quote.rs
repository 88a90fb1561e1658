//! Quotes for moving tokens between chains, as callers ask for them and as
//! they are answered.

use crate::services::lifi::{LifiError, QuoteResult};
use vstd::prelude::*;
use vstd::string::*;

verus! {

/// What a caller asks a quote for.
#[derive(Debug)]
pub struct QuoteRequest {
    pub from_chain: String,
    pub to_chain: String,
    pub from_token: String,
    pub to_token: String,
    pub from_amount: String,
    pub from_address: Option<String>,
}

/// The answer to a request for a quote.
#[derive(Debug)]
pub struct QuoteResponse {
    pub from_amount: String,
    pub to_amount: String,
    pub estimated_gas: String,
    /// Seconds.
    pub estimated_time: u64,
    pub route: Option<serde_json::Value>,
    pub error: Option<String>,
}

impl QuoteResponse {
    /// The answer for an amount asked: the quote found, or, for a fault,
    /// amounts of `0`, no time, no route, and the fault in words.
    pub fn from_outcome(from_amount: String, outcome: Result<QuoteResult, LifiError>) -> (response:
        QuoteResponse)
        ensures
            response.from_amount@ == from_amount@,
            match outcome {
                Ok(quote) => {
                    &&& response.to_amount@ == quote.to_amount@
                    &&& response.estimated_gas@ == quote.estimated_gas@
                    &&& response.estimated_time == quote.estimated_time
                    &&& response.route == quote.route
                    &&& response.error is None
                },
                Err(fault) => {
                    &&& response.to_amount@ == seq!['0']
                    &&& response.estimated_gas@ == seq!['0']
                    &&& response.estimated_time == 0
                    &&& response.route is None
                    &&& response.error is Some
                    &&& response.error->Some_0@ == fault@.message()
                },
            },
    {
        proof {
            reveal_strlit("0");
            assert("0"@ =~= seq!['0']);
        }
        match outcome {
            Ok(quote) => QuoteResponse {
                from_amount,
                to_amount: quote.to_amount,
                estimated_gas: quote.estimated_gas,
                estimated_time: quote.estimated_time,
                route: quote.route,
                error: None,
            },
            Err(fault) => QuoteResponse {
                from_amount,
                to_amount: String::from_str("0"),
                estimated_gas: String::from_str("0"),
                estimated_time: 0,
                route: None,
                error: Some(fault.message()),
            },
        }
    }
}

} // verus!

//! Quotes from the LI.FI routing service: what is asked of it and what its
//! answer means.

use crate::api::quote::QuoteRequest;
use crate::json::{
    element, fault_text, lemma_descend_push, member, number_of, parse_document, text_at,
    text_member, Step,
};
use crate::services::reply::Reply;
use crate::text::{borrowed, name_view, owned, text_view};
use vstd::prelude::*;
use vstd::string::*;

verus! {

/// Why no quote was had.
#[derive(Debug)]
pub enum LifiError {
    /// The service knows no route.
    NoRoute,
    /// The service could not be asked or understood; holds the reason.
    ApiError(String),
    /// A chain is not known; holds its name.
    InvalidChain(String),
}

/// A `LifiError` with its text as a sequence of characters.
pub enum LifiErrorView {
    NoRoute,
    ApiError(Seq<char>),
    InvalidChain(Seq<char>),
}

impl View for LifiError {
    type V = LifiErrorView;

    open spec fn view(&self) -> LifiErrorView {
        match self {
            LifiError::NoRoute => LifiErrorView::NoRoute,
            LifiError::ApiError(why) => LifiErrorView::ApiError(why@),
            LifiError::InvalidChain(chain) => LifiErrorView::InvalidChain(chain@),
        }
    }
}

impl LifiErrorView {
    /// The error in words.
    pub open spec fn message(self) -> Seq<char> {
        match self {
            LifiErrorView::NoRoute => "No route available"@,
            LifiErrorView::ApiError(why) => "API request failed: "@ + why,
            LifiErrorView::InvalidChain(chain) => "Invalid chain: "@ + chain,
        }
    }
}

impl LifiError {
    /// The error in words.
    pub fn message(&self) -> (text: String)
        ensures
            text@ == self@.message(),
    {
        match self {
            LifiError::NoRoute => String::from_str("No route available"),
            LifiError::ApiError(why) => String::from_str("API request failed: ").concat(
                why.as_str(),
            ),
            LifiError::InvalidChain(chain) => String::from_str("Invalid chain: ").concat(
                chain.as_str(),
            ),
        }
    }
}

/// A quote: what arrives, what the gas costs, how many seconds it takes, and
/// the service's whole answer.
#[derive(Debug)]
pub struct QuoteResult {
    pub to_amount: String,
    pub estimated_gas: String,
    pub estimated_time: u64,
    pub route: Option<serde_json::Value>,
}

/// The text given, or `0` where none is given.
pub open spec fn or_zero(text: Option<Seq<char>>) -> Seq<char> {
    match text {
        Some(given) => given,
        None => seq!['0'],
    }
}

/// The names and values of the query that asks for a quote, in order; the
/// sender's address comes last and only where the request has one.
pub open spec fn query_of(
    from_chain: Seq<char>,
    to_chain: Seq<char>,
    from_token: Seq<char>,
    to_token: Seq<char>,
    from_amount: Seq<char>,
    from_address: Option<Seq<char>>,
) -> Seq<(Seq<char>, Seq<char>)> {
    let fixed = seq![
        ("fromChain"@, from_chain),
        ("toChain"@, to_chain),
        ("fromToken"@, from_token),
        ("toToken"@, to_token),
        ("fromAmount"@, from_amount),
    ];
    match from_address {
        Some(address) => fixed.push(("fromAddress"@, address)),
        None => fixed,
    }
}

/// Pairs of texts as pairs of sequences of characters.
pub open spec fn pairs_view(pairs: Seq<(String, String)>) -> Seq<(Seq<char>, Seq<char>)> {
    pairs.map_values(|pair: (String, String)| (pair.0@, pair.1@))
}

/// Where the routing service is reached, and with which key.
#[derive(Debug)]
pub struct LifiService {
    api_url: String,
    api_key: Option<String>,
}

impl LifiService {
    /// The address of the service, without a path.
    pub closed spec fn url(&self) -> Seq<char> {
        self.api_url@
    }

    /// The key that requests carry, if any.
    pub closed spec fn key(&self) -> Option<Seq<char>> {
        name_view(self.api_key)
    }

    /// A service at `api_url`, or at `https://li.quest/v1` where none is
    /// given, with the key given.
    pub fn new(api_url: Option<String>, api_key: Option<String>) -> (service: LifiService)
        ensures
            service.url() == match api_url {
                Some(url) => url@,
                None => "https://li.quest/v1"@,
            },
            service.key() == name_view(api_key),
    {
        let api_url = match api_url {
            Some(url) => url,
            None => String::from_str("https://li.quest/v1"),
        };
        LifiService { api_url, api_key }
    }

    /// Where quotes are asked for: the service's address followed by `/quote`.
    pub fn quote_url(&self) -> (url: String)
        ensures
            url@ == self.url() + "/quote"@,
    {
        self.api_url.clone().concat("/quote")
    }

    /// The key that requests carry in the header `x-lifi-api-key`, if any.
    pub fn api_key(&self) -> (key: Option<&str>)
        ensures
            text_view(key) == self.key(),
    {
        match &self.api_key {
            Some(key) => Some(key.as_str()),
            None => None,
        }
    }

    /// The query that asks for the quote that `params` describes.
    pub fn query(params: &QuoteRequest) -> (pairs: Vec<(String, String)>)
        ensures
            pairs_view(pairs@) == query_of(
                params.from_chain@,
                params.to_chain@,
                params.from_token@,
                params.to_token@,
                params.from_amount@,
                name_view(params.from_address),
            ),
    {
        let mut pairs: Vec<(String, String)> = Vec::new();
        pairs.push((String::from_str("fromChain"), params.from_chain.clone()));
        pairs.push((String::from_str("toChain"), params.to_chain.clone()));
        pairs.push((String::from_str("fromToken"), params.from_token.clone()));
        pairs.push((String::from_str("toToken"), params.to_token.clone()));
        pairs.push((String::from_str("fromAmount"), params.from_amount.clone()));
        match &params.from_address {
            Some(address) => {
                pairs.push((String::from_str("fromAddress"), address.clone()));
            },
            None => {},
        }
        assert(pairs_view(pairs@) =~= query_of(
            params.from_chain@,
            params.to_chain@,
            params.from_token@,
            params.to_token@,
            params.from_amount@,
            name_view(params.from_address),
        ));
        pairs
    }

    /// The quote in an answer of the service: the amounts it names, or `0`
    /// for one it does not name; the seconds it names, or none; and the whole
    /// answer as the route.
    pub fn quote_from(
        to_amount: Option<&str>,
        gas: Option<&str>,
        seconds: Option<u64>,
        route: serde_json::Value,
    ) -> (quote: QuoteResult)
        ensures
            quote.to_amount@ == or_zero(text_view(to_amount)),
            quote.estimated_gas@ == or_zero(text_view(gas)),
            quote.estimated_time == match seconds {
                Some(given) => given,
                None => 0,
            },
            quote.route == Some(route),
    {
        proof {
            reveal_strlit("0");
            assert("0"@ =~= seq!['0']);
        }
        QuoteResult {
            to_amount: String::from_str(
                match to_amount {
                    Some(given) => given,
                    None => "0",
                },
            ),
            estimated_gas: String::from_str(
                match gas {
                    Some(given) => given,
                    None => "0",
                },
            ),
            estimated_time: match seconds {
                Some(given) => given,
                None => 0,
            },
            route: Some(route),
        }
    }

    /// Reads the reply of the service to a request for a quote. A request
    /// that was not sent, a refusal, or an answer that cannot be read is an
    /// `ApiError`; a body is parsed as JSON, and its `estimate` holds the
    /// quote: `toAmount`, the `amount` of the first of `gasCosts`, and
    /// `executionDuration`.
    pub fn read_quote_reply(reply: &Reply) -> (r: Result<QuoteResult, LifiError>)
        ensures
            match reply {
                Reply::Unreached(why) => r is Err && r->Err_0@ == LifiErrorView::ApiError(why@),
                Reply::Refused(status) => r is Err && r->Err_0@ == LifiErrorView::ApiError(
                    "Status: "@ + status@,
                ),
                Reply::Garbled(why) => r is Err && r->Err_0@ == LifiErrorView::ApiError(why@),
                Reply::Body(_) => match r {
                    Ok(quote) => quote.route is Some,
                    Err(fault) => fault@ is ApiError,
                },
            },
    {
        match reply {
            Reply::Unreached(why) => Err(LifiError::ApiError(why.clone())),
            Reply::Refused(status) => Err(
                LifiError::ApiError(String::from_str("Status: ").concat(status.as_str())),
            ),
            Reply::Garbled(why) => Err(LifiError::ApiError(why.clone())),
            Reply::Body(text) => match parse_document(text.as_str()) {
                Err(fault) => Err(LifiError::ApiError(fault_text(&fault))),
                Ok(data) => {
                    let estimate = member(&data, "estimate");
                    let to_amount = match estimate {
                        Some(inner) => owned(text_member(inner, "toAmount")),
                        None => None,
                    };
                    let gas = match estimate {
                        Some(inner) => owned(first_gas_cost(inner)),
                        None => None,
                    };
                    let seconds = match estimate {
                        Some(inner) => match member(inner, "executionDuration") {
                            Some(duration) => number_of(duration),
                            None => None,
                        },
                        None => None,
                    };
                    Ok(Self::quote_from(borrowed(&to_amount), borrowed(&gas), seconds, data))
                },
            },
        }
    }
}

/// Where an estimate holds the cost of gas: in `gasCosts`, there in the
/// first element, there under `amount`.
pub open spec fn gas_cost_path() -> Seq<Step> {
    seq![Step::Key("gasCosts"@), Step::Index(0), Step::Key("amount"@)]
}

/// The `amount` of the first of the estimate's `gasCosts`.
fn first_gas_cost<'a>(estimate: &'a serde_json::Value) -> (amount: Option<&'a str>)
    ensures
        text_view(amount) == text_at(*estimate, gas_cost_path()),
{
    proof {
        let none = Seq::<Step>::empty();
        let one = none.push(Step::Key("gasCosts"@));
        let two = one.push(Step::Index(0));
        lemma_descend_push(*estimate, none, Step::Key("gasCosts"@));
        lemma_descend_push(*estimate, one, Step::Index(0));
        lemma_descend_push(*estimate, two, Step::Key("amount"@));
        assert(two.push(Step::Key("amount"@)) =~= gas_cost_path());
    }
    let costs = match member(estimate, "gasCosts") {
        Some(costs) => costs,
        None => {
            return None;
        },
    };
    match element(costs, 0) {
        Some(first) => {
            proof {
                lemma_descend_push(*first, Seq::empty(), Step::Key("amount"@));
            }
            text_member(first, "amount")
        },
        None => None,
    }
}

} // verus!

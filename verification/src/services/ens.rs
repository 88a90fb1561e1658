//! ENS names and the addresses they resolve to: which names and addresses are
//! well formed, what a resolver's answer means, and what is remembered of
//! earlier answers.

use crate::json::{
    element, fault_text, lemma_descend_push, member, parse_document, text_at, text_member, Step,
};
use crate::services::reply::Reply;
use crate::text::{copy_name, name_view, owned, same_text, text_view, to_chars};
use crate::utils::{ends_with_eth, has_eth_suffix, hex_digit, is_address_text, is_hex_digit};
use vstd::hash_map::StringHashMap;
use vstd::prelude::*;
use vstd::string::*;
use vstd::utf8::*;

verus! {

/// Why a name or an address was not resolved.
#[derive(Debug)]
pub enum EnsError {
    /// The name or address is malformed; holds the reason.
    InvalidName(String),
    /// No resolver knows the name; holds the name.
    NotFound(String),
    /// A resolver could not be asked or understood; holds the reason.
    ResolutionFailed(String),
}

/// An `EnsError` with its text as a sequence of characters.
pub enum EnsErrorView {
    InvalidName(Seq<char>),
    NotFound(Seq<char>),
    ResolutionFailed(Seq<char>),
}

impl View for EnsError {
    type V = EnsErrorView;

    open spec fn view(&self) -> EnsErrorView {
        match self {
            EnsError::InvalidName(why) => EnsErrorView::InvalidName(why@),
            EnsError::NotFound(name) => EnsErrorView::NotFound(name@),
            EnsError::ResolutionFailed(why) => EnsErrorView::ResolutionFailed(why@),
        }
    }
}

impl EnsErrorView {
    /// The error in words.
    pub open spec fn message(self) -> Seq<char> {
        match self {
            EnsErrorView::InvalidName(why) => "Invalid ENS name: "@ + why,
            EnsErrorView::NotFound(name) => "ENS name not found: "@ + name,
            EnsErrorView::ResolutionFailed(why) => "Resolution failed: "@ + why,
        }
    }
}

impl EnsError {
    /// The error in words.
    pub fn message(&self) -> (text: String)
        ensures
            text@ == self@.message(),
    {
        match self {
            EnsError::InvalidName(why) => String::from_str("Invalid ENS name: ").concat(
                why.as_str(),
            ),
            EnsError::NotFound(name) => String::from_str("ENS name not found: ").concat(
                name.as_str(),
            ),
            EnsError::ResolutionFailed(why) => String::from_str("Resolution failed: ").concat(
                why.as_str(),
            ),
        }
    }
}

/// The text without any run of `.eth` at its end.
pub open spec fn strip_eth(text: Seq<char>) -> Seq<char>
    decreases text.len(),
{
    if ends_with_eth(text) {
        strip_eth(text.take(text.len() - 4))
    } else {
        text
    }
}

/// Where the last label of the text begins: just behind its last dot, or at
/// its start where it has none.
pub open spec fn label_start(text: Seq<char>) -> int
    decreases text.len(),
{
    if text.len() == 0 {
        0
    } else if text.last() == '.' {
        text.len() as int
    } else {
        label_start(text.drop_last())
    }
}

/// The label that stands directly before `.eth`: of `sub.name.eth` it is
/// `name`.
pub open spec fn primary_label(text: Seq<char>) -> Seq<char> {
    strip_eth(text).skip(label_start(strip_eth(text)))
}

/// What is wrong with a name, if anything: it must end in `.eth`, and its
/// primary label must take at least three bytes.
pub open spec fn name_fault(text: Seq<char>) -> Option<Seq<char>> {
    if !ends_with_eth(text) {
        Some("ENS name must end with .eth"@)
    } else if encode_utf8(primary_label(text)).len() < 3 {
        Some("ENS primary label must be at least 3 characters"@)
    } else {
        None
    }
}

/// What is wrong with an address, if anything: it must take 42 bytes, begin
/// with `0x`, and go on in hexadecimal digits only.
pub open spec fn address_fault(text: Seq<char>) -> Option<Seq<char>> {
    if encode_utf8(text).len() != 42 {
        Some("Address must be 42 characters (0x + 40 hex digits)"@)
    } else if !(text.len() >= 2 && text[0] == '0' && text[1] == 'x') {
        Some("Address must start with 0x"@)
    } else if !(forall|i: int| 2 <= i < text.len() ==> is_hex_digit(#[trigger] text[i])) {
        Some("Address contains non-hex characters"@)
    } else {
        None
    }
}

/// The addresses without fault are the address texts: `0x` and forty
/// hexadecimal digits.
pub proof fn lemma_address_fault_none(text: Seq<char>)
    ensures
        address_fault(text) is None <==> is_address_text(text),
{
    if is_address_text(text) || (text.len() >= 2 && text[0] == '0' && text[1] == 'x' && forall|
        i: int,
    |
        2 <= i < text.len() ==> is_hex_digit(#[trigger] text[i])) {
        assert(is_ascii_chars(text)) by {
            assert forall|i: int| 0 <= i < text.len() implies '\0' <= #[trigger] text[i]
                <= '\u{7f}' by {
                if i >= 2 {
                    assert(is_hex_digit(text[i]));
                }
            }
        }
        is_ascii_chars_encode_utf8(text);
    }
}

/// What a resolver found for a name.
#[derive(Debug)]
pub struct EnsResult {
    pub address: String,
    pub avatar: Option<String>,
}

/// An `EnsResult` with its text as sequences of characters.
pub struct EnsResultView {
    pub address: Seq<char>,
    pub avatar: Option<Seq<char>>,
}

impl View for EnsResult {
    type V = EnsResultView;

    open spec fn view(&self) -> EnsResultView {
        EnsResultView { address: self.address@, avatar: name_view(self.avatar) }
    }
}

impl Clone for EnsResult {
    fn clone(&self) -> (copy: Self)
        ensures
            copy == *self,
    {
        EnsResult { address: self.address.clone(), avatar: copy_name(&self.avatar) }
    }
}

/// The lower-case form of a text, as `str::to_lowercase` gives it.
pub uninterp spec fn lowercase_of(text: Seq<char>) -> Seq<char>;

/// Turns a text to lower case with `str::to_lowercase`. The result is a
/// function of the text alone; which one is left to the standard library.
#[verifier::external_body]
pub(crate) fn lowercase(text: &str) -> (lower: String)
    ensures
        lower@ == lowercase_of(text@),
{
    text.to_lowercase()
}

/// The outcome of a resolution with its text as sequences of characters.
pub open spec fn outcome_view(outcome: Result<EnsResult, EnsError>) -> Result<
    EnsResultView,
    EnsErrorView,
> {
    match outcome {
        Ok(found) => Ok(found@),
        Err(fault) => Err(fault@),
    }
}

/// The address that resolvers give for a name without an address.
pub open spec fn zero_address() -> Seq<char> {
    "0x0000000000000000000000000000000000000000"@
}

/// What a resolver's answer means for `name`: the address it gave, with the
/// avatar, unless it gave none, an empty one or the zero address, which all
/// mean that the name was not found.
pub open spec fn answer(
    name: Seq<char>,
    address: Option<Seq<char>>,
    avatar: Option<Seq<char>>,
) -> Result<EnsResultView, EnsErrorView> {
    match address {
        Some(found) => if found.len() == 0 || found == zero_address() {
            Err(EnsErrorView::NotFound(name))
        } else {
            Ok(EnsResultView { address: found, avatar })
        },
        None => Err(EnsErrorView::NotFound(name)),
    }
}

/// What can come of reading a resolver's answer for `name`: an address that
/// is neither empty nor zero, `NotFound` for the name, or a failure to parse.
pub open spec fn is_read_outcome(
    name: Seq<char>,
    outcome: Result<EnsResultView, EnsErrorView>,
) -> bool {
    match outcome {
        Ok(found) => found.address.len() > 0 && found.address != zero_address(),
        Err(EnsErrorView::NotFound(missing)) => missing == name,
        Err(EnsErrorView::ResolutionFailed(why)) => "Failed to parse response: "@.is_prefix_of(why),
        Err(EnsErrorView::InvalidName(_)) => false,
    }
}

/// A failure whose reason is `what` followed by `why`.
fn failed(what: &str, why: &str) -> (fault: EnsError)
    ensures
        fault@ == EnsErrorView::ResolutionFailed(what@ + why@),
{
    EnsError::ResolutionFailed(String::from_str(what).concat(why))
}

/// Turns a resolver's answer into the outcome for `name`, as `answer` says.
pub fn answer_from(name: &str, address: Option<&str>, avatar: Option<&str>) -> (r: Result<
    EnsResult,
    EnsError,
>)
    ensures
        outcome_view(r) == answer(name@, text_view(address), text_view(avatar)),
{
    match address {
        Some(found) => {
            if found.is_empty() || same_text(found, "0x0000000000000000000000000000000000000000") {
                Err(EnsError::NotFound(String::from_str(name)))
            } else {
                Ok(EnsResult { address: String::from_str(found), avatar: owned(avatar) })
            }
        },
        None => Err(EnsError::NotFound(String::from_str(name))),
    }
}

/// Reads the reply of the lookup service to a question for `name`. A request
/// that was not sent, or an answer that cannot be read, is a failure; a
/// refusal means that the name was not found; a body is parsed as JSON, and
/// its members `address` and `avatar` are the answer.
pub fn read_api_reply(name: &str, reply: &Reply) -> (r: Result<EnsResult, EnsError>)
    ensures
        match reply {
            Reply::Unreached(why) => outcome_view(r) == Err::<EnsResultView, EnsErrorView>(
                EnsErrorView::ResolutionFailed("HTTP request failed: "@ + why@),
            ),
            Reply::Refused(_) => outcome_view(r) == Err::<EnsResultView, EnsErrorView>(
                EnsErrorView::NotFound(name@),
            ),
            Reply::Garbled(why) => outcome_view(r) == Err::<EnsResultView, EnsErrorView>(
                EnsErrorView::ResolutionFailed("Failed to parse response: "@ + why@),
            ),
            Reply::Body(_) => is_read_outcome(name@, outcome_view(r)),
        },
{
    match reply {
        Reply::Unreached(why) => Err(failed("HTTP request failed: ", why.as_str())),
        Reply::Refused(_) => Err(EnsError::NotFound(String::from_str(name))),
        Reply::Garbled(why) => Err(failed("Failed to parse response: ", why.as_str())),
        Reply::Body(text) => match parse_document(text.as_str()) {
            Err(fault) => {
                let why = fault_text(&fault);
                Err(failed("Failed to parse response: ", why.as_str()))
            },
            Ok(data) => answer_from(
                name,
                text_member(&data, "address"),
                text_member(&data, "avatar"),
            ),
        },
    }
}

/// Reads the reply of the subgraph to a question for `name`. A request that
/// was not sent, a refusal, or an answer that cannot be read is a failure; a
/// body is parsed as JSON, and the `resolvedAddress.id` of the first of its
/// `data.domains` is the answer, without an avatar.
pub fn read_subgraph_reply(name: &str, reply: &Reply) -> (r: Result<EnsResult, EnsError>)
    ensures
        match reply {
            Reply::Unreached(why) => outcome_view(r) == Err::<EnsResultView, EnsErrorView>(
                EnsErrorView::ResolutionFailed("Subgraph request failed: "@ + why@),
            ),
            Reply::Refused(_) => outcome_view(r) == Err::<EnsResultView, EnsErrorView>(
                EnsErrorView::ResolutionFailed("Subgraph returned error"@),
            ),
            Reply::Garbled(why) => outcome_view(r) == Err::<EnsResultView, EnsErrorView>(
                EnsErrorView::ResolutionFailed("Failed to parse response: "@ + why@),
            ),
            Reply::Body(_) => is_read_outcome(name@, outcome_view(r)) && (r is Ok
                ==> r->Ok_0@.avatar is None),
        },
{
    match reply {
        Reply::Unreached(why) => Err(failed("Subgraph request failed: ", why.as_str())),
        Reply::Refused(_) => Err(
            EnsError::ResolutionFailed(String::from_str("Subgraph returned error")),
        ),
        Reply::Garbled(why) => Err(failed("Failed to parse response: ", why.as_str())),
        Reply::Body(text) => match parse_document(text.as_str()) {
            Err(fault) => {
                let why = fault_text(&fault);
                Err(failed("Failed to parse response: ", why.as_str()))
            },
            Ok(data) => answer_from(name, first_resolved_address(&data), None),
        },
    }
}

/// Where the subgraph's answer holds the address: in `data`, there in
/// `domains`, there in the first element, there in `resolvedAddress`, there
/// under `id`.
pub open spec fn resolved_address_path() -> Seq<Step> {
    seq![
        Step::Key("data"@),
        Step::Key("domains"@),
        Step::Index(0),
        Step::Key("resolvedAddress"@),
        Step::Key("id"@),
    ]
}

/// The `resolvedAddress.id` of the first of the document's `data.domains`.
fn first_resolved_address<'a>(data: &'a serde_json::Value) -> (address: Option<&'a str>)
    ensures
        text_view(address) == text_at(*data, resolved_address_path()),
{
    proof {
        let none = Seq::<Step>::empty();
        let one = none.push(Step::Key("data"@));
        let two = one.push(Step::Key("domains"@));
        let three = two.push(Step::Index(0));
        let four = three.push(Step::Key("resolvedAddress"@));
        lemma_descend_push(*data, none, Step::Key("data"@));
        lemma_descend_push(*data, one, Step::Key("domains"@));
        lemma_descend_push(*data, two, Step::Index(0));
        lemma_descend_push(*data, three, Step::Key("resolvedAddress"@));
        lemma_descend_push(*data, four, Step::Key("id"@));
        assert(four.push(Step::Key("id"@)) =~= resolved_address_path());
    }
    let inner = match member(data, "data") {
        Some(inner) => inner,
        None => {
            return None;
        },
    };
    let domains = match member(inner, "domains") {
        Some(domains) => domains,
        None => {
            return None;
        },
    };
    let first = match element(domains, 0) {
        Some(first) => first,
        None => {
            return None;
        },
    };
    match member(first, "resolvedAddress") {
        Some(resolved) => {
            proof {
                lemma_descend_push(*resolved, Seq::empty(), Step::Key("id"@));
            }
            text_member(resolved, "id")
        },
        None => None,
    }
}

/// The name in an answer to a reverse lookup: its `ens`, or else its `name`.
pub fn name_from<'a>(ens: Option<&'a str>, name: Option<&'a str>) -> (found: Option<String>)
    ensures
        name_view(found) == if ens is Some {
            text_view(ens)
        } else {
            text_view(name)
        },
{
    match ens {
        Some(text) => Some(String::from_str(text)),
        None => owned(name),
    }
}

/// Reads the reply of the lookup service to a reverse lookup. A request that
/// was not sent, or an answer that cannot be read, is a failure; a refusal
/// means that the address has no name; a body is parsed as JSON, and its
/// member `ens`, or else `name`, is the name.
pub fn read_reverse_reply(reply: &Reply) -> (r: Result<Option<String>, EnsError>)
    ensures
        match reply {
            Reply::Unreached(why) => r is Err && r->Err_0@ == EnsErrorView::ResolutionFailed(
                "HTTP request failed: "@ + why@,
            ),
            Reply::Refused(_) => r is Ok && r->Ok_0 is None,
            Reply::Garbled(why) => r is Err && r->Err_0@ == EnsErrorView::ResolutionFailed(
                "Failed to parse response: "@ + why@,
            ),
            Reply::Body(_) => r is Err ==> r->Err_0@ is ResolutionFailed
                && "Failed to parse response: "@.is_prefix_of(r->Err_0@->ResolutionFailed_0),
        },
{
    match reply {
        Reply::Unreached(why) => Err(failed("HTTP request failed: ", why.as_str())),
        Reply::Refused(_) => Ok(None),
        Reply::Garbled(why) => Err(failed("Failed to parse response: ", why.as_str())),
        Reply::Body(text) => match parse_document(text.as_str()) {
            Err(fault) => {
                let why = fault_text(&fault);
                Err(failed("Failed to parse response: ", why.as_str()))
            },
            Ok(data) => Ok(name_from(text_member(&data, "ens"), text_member(&data, "name"))),
        },
    }
}

/// What is remembered of one answer: for a name, its address and avatar; for
/// an address, its name in place of the address. `stored_at` is the reading
/// of the clock, in milliseconds, when the answer came.
#[derive(Debug)]
pub struct CacheEntry {
    pub address: String,
    pub avatar: Option<String>,
    pub stored_at: u64,
}

/// A `CacheEntry` with its text as sequences of characters.
pub struct CacheEntryView {
    pub address: Seq<char>,
    pub avatar: Option<Seq<char>>,
    pub stored_at: u64,
}

impl View for CacheEntry {
    type V = CacheEntryView;

    open spec fn view(&self) -> CacheEntryView {
        CacheEntryView {
            address: self.address@,
            avatar: name_view(self.avatar),
            stored_at: self.stored_at,
        }
    }
}

impl CacheEntryView {
    /// The entry is younger than `ttl` at the time `now`.
    pub open spec fn fresh(self, ttl: u64, now: u64) -> bool {
        self.stored_at + ttl > now
    }
}

/// What to do next for a name that is being resolved.
#[derive(Debug)]
pub enum ResolveAction {
    /// Nothing: this is the outcome.
    Finish(Result<EnsResult, EnsError>),
    /// Ask the lookup service for the name held, which is in lower case.
    AskApi(String),
    /// Ask the subgraph for the name held, which is in lower case.
    AskSubgraph(String),
}

/// A `ResolveAction` with its text as sequences of characters.
pub enum ResolveActionView {
    Finish(Result<EnsResultView, EnsErrorView>),
    AskApi(Seq<char>),
    AskSubgraph(Seq<char>),
}

impl View for ResolveAction {
    type V = ResolveActionView;

    open spec fn view(&self) -> ResolveActionView {
        match self {
            ResolveAction::Finish(outcome) => ResolveActionView::Finish(outcome_view(*outcome)),
            ResolveAction::AskApi(name) => ResolveActionView::AskApi(name@),
            ResolveAction::AskSubgraph(name) => ResolveActionView::AskSubgraph(name@),
        }
    }
}

/// What to do next for an address whose name is looked up.
#[derive(Debug)]
pub enum ReverseAction {
    /// Nothing: this is the outcome.
    Finish(Result<Option<String>, EnsError>),
    /// Ask the lookup service for the address held, which is in lower case.
    AskApi(String),
}

/// A `ReverseAction` with its text as sequences of characters.
pub enum ReverseActionView {
    Finish(Result<Option<Seq<char>>, EnsErrorView>),
    AskApi(Seq<char>),
}

/// The outcome of a reverse lookup with its text as sequences of characters.
pub open spec fn reverse_outcome_view(outcome: Result<Option<String>, EnsError>) -> Result<
    Option<Seq<char>>,
    EnsErrorView,
> {
    match outcome {
        Ok(name) => Ok(name_view(name)),
        Err(fault) => Err(fault@),
    }
}

impl View for ReverseAction {
    type V = ReverseActionView;

    open spec fn view(&self) -> ReverseActionView {
        match self {
            ReverseAction::Finish(outcome) => ReverseActionView::Finish(
                reverse_outcome_view(*outcome),
            ),
            ReverseAction::AskApi(address) => ReverseActionView::AskApi(address@),
        }
    }
}

/// The names and addresses resolved lately, so that they need not be asked
/// for again before they are `cache_ttl` milliseconds old.
pub struct EnsService {
    cache: StringHashMap<CacheEntry>,
    reverse_cache: StringHashMap<CacheEntry>,
    cache_ttl: u64,
}

/// What an `EnsService` remembers: entries by name in lower case, entries by
/// address in lower case, and how long an entry counts, in milliseconds.
pub struct EnsServiceView {
    pub cache: Map<Seq<char>, CacheEntryView>,
    pub reverse: Map<Seq<char>, CacheEntryView>,
    pub ttl: u64,
}

impl EnsServiceView {
    /// What is remembered for the name `key` and still fresh at `now`.
    pub open spec fn cached(self, key: Seq<char>, now: u64) -> Option<EnsResultView> {
        if self.cache.contains_key(key) && self.cache[key].fresh(self.ttl, now) {
            Some(EnsResultView { address: self.cache[key].address, avatar: self.cache[key].avatar })
        } else {
            None
        }
    }

    /// The name remembered for the address `key` and still fresh at `now`.
    pub open spec fn reverse_cached(self, key: Seq<char>, now: u64) -> Option<Seq<char>> {
        if self.reverse.contains_key(key) && self.reverse[key].fresh(self.ttl, now) {
            Some(self.reverse[key].address)
        } else {
            None
        }
    }

    /// The service after it has noted, at `now`, that `name` resolves to
    /// `address`: under the name the address, and under the address in lower
    /// case the name.
    pub open spec fn remember(
        self,
        name: Seq<char>,
        address: Seq<char>,
        avatar: Option<Seq<char>>,
        now: u64,
    ) -> EnsServiceView {
        EnsServiceView {
            cache: self.cache.insert(name, CacheEntryView { address, avatar, stored_at: now }),
            reverse: self.reverse.insert(
                lowercase_of(address),
                CacheEntryView { address: name, avatar, stored_at: now },
            ),
            ttl: self.ttl,
        }
    }

    /// The service after it has noted, at `now`, that `address` has `name`.
    pub open spec fn remember_name(
        self,
        address: Seq<char>,
        name: Seq<char>,
        now: u64,
    ) -> EnsServiceView {
        EnsServiceView {
            cache: self.cache,
            reverse: self.reverse.insert(
                address,
                CacheEntryView { address: name, avatar: None, stored_at: now },
            ),
            ttl: self.ttl,
        }
    }

    /// The first step for `name` at `now`: a malformed name is refused, a
    /// name remembered is answered, any other is asked of the lookup service.
    pub open spec fn first_step(self, name: Seq<char>, now: u64) -> ResolveActionView {
        match name_fault(name) {
            Some(why) => ResolveActionView::Finish(Err(EnsErrorView::InvalidName(why))),
            None => match self.cached(lowercase_of(name), now) {
                Some(found) => ResolveActionView::Finish(Ok(found)),
                None => ResolveActionView::AskApi(lowercase_of(name)),
            },
        }
    }

    /// The first step for an address at `now`: a malformed address is
    /// refused, an address remembered is answered, any other is asked of the
    /// lookup service.
    pub open spec fn first_reverse_step(self, address: Seq<char>, now: u64) -> ReverseActionView {
        match address_fault(address) {
            Some(why) => ReverseActionView::Finish(Err(EnsErrorView::InvalidName(why))),
            None => match self.reverse_cached(lowercase_of(address), now) {
                Some(name) => ReverseActionView::Finish(Ok(Some(name))),
                None => ReverseActionView::AskApi(lowercase_of(address)),
            },
        }
    }
}

impl View for EnsService {
    type V = EnsServiceView;

    closed spec fn view(&self) -> EnsServiceView {
        EnsServiceView {
            cache: self.cache@.map_values(|e: CacheEntry| e@),
            reverse: self.reverse_cache@.map_values(|e: CacheEntry| e@),
            ttl: self.cache_ttl,
        }
    }
}

impl EnsService {
    /// A service that remembers nothing yet and counts an answer for five
    /// minutes.
    pub fn new() -> (service: EnsService)
        ensures
            service@.cache == Map::<Seq<char>, CacheEntryView>::empty(),
            service@.reverse == Map::<Seq<char>, CacheEntryView>::empty(),
            service@.ttl == 300_000,
    {
        let service = EnsService {
            cache: StringHashMap::new(),
            reverse_cache: StringHashMap::new(),
            cache_ttl: 300_000,
        };
        assert(service@.cache =~= Map::<Seq<char>, CacheEntryView>::empty());
        assert(service@.reverse =~= Map::<Seq<char>, CacheEntryView>::empty());
        service
    }

    /// Whether a name is well formed: `Ok` where `name_fault` finds nothing,
    /// else `InvalidName` with what it found.
    pub fn validate_name(name: &str) -> (r: Result<(), EnsError>)
        ensures
            match name_fault(name@) {
                None => r is Ok,
                Some(why) => r is Err && r->Err_0@ == EnsErrorView::InvalidName(why),
            },
    {
        let chars = to_chars(name);
        let n = chars.len();
        assert(chars@.take(n as int) =~= chars@);
        if !has_eth_suffix(&chars, n) {
            return Err(EnsError::InvalidName(String::from_str("ENS name must end with .eth")));
        }
        let mut end: usize = n;
        while has_eth_suffix(&chars, end)
            invariant
                end <= n,
                n == chars@.len(),
                strip_eth(chars@) == strip_eth(chars@.take(end as int)),
            decreases end,
        {
            assert(chars@.take(end as int).take(end - 4) =~= chars@.take(end - 4));
            end = end - 4;
        }
        let ghost stem = chars@.take(end as int);
        assert(strip_eth(chars@) == stem);
        let mut start: usize = end;
        assert(stem.take(start as int) =~= stem);
        while start > 0 && chars[start - 1] != '.'
            invariant
                start <= end <= n,
                n == chars@.len(),
                stem == chars@.take(end as int),
                label_start(stem) == label_start(stem.take(start as int)),
            decreases start,
        {
            assert(stem.take(start as int).drop_last() =~= stem.take(start - 1));
            start = start - 1;
        }
        assert(label_start(stem) == start) by {
            if start > 0 {
                assert(stem.take(start as int).last() == chars@[start - 1]);
            }
        }
        let label = name.substring_char(start, end);
        assert(label@ =~= primary_label(name@));
        assert(label.spec_bytes() == encode_utf8(label@));
        if label.as_bytes().len() < 3 {
            return Err(
                EnsError::InvalidName(
                    String::from_str("ENS primary label must be at least 3 characters"),
                ),
            );
        }
        Ok(())
    }

    /// Whether an address is well formed: `Ok` where `address_fault` finds
    /// nothing, that is for `0x` and forty hexadecimal digits, else
    /// `InvalidName` with what it found.
    pub fn validate_address(address: &str) -> (r: Result<(), EnsError>)
        ensures
            match address_fault(address@) {
                None => r is Ok,
                Some(why) => r is Err && r->Err_0@ == EnsErrorView::InvalidName(why),
            },
            r is Ok <==> is_address_text(address@),
    {
        proof {
            lemma_address_fault_none(address@);
        }
        assert(address.spec_bytes() == encode_utf8(address@));
        if address.as_bytes().len() != 42 {
            return Err(
                EnsError::InvalidName(
                    String::from_str("Address must be 42 characters (0x + 40 hex digits)"),
                ),
            );
        }
        let chars = to_chars(address);
        let n = chars.len();
        if n < 2 || chars[0] != '0' || chars[1] != 'x' {
            return Err(EnsError::InvalidName(String::from_str("Address must start with 0x")));
        }
        let mut i: usize = 2;
        while i < n
            invariant
                2 <= i <= n,
                n == chars@.len(),
                chars@ == address@,
                encode_utf8(address@).len() == 42,
                chars@[0] == '0',
                chars@[1] == 'x',
                forall|j: int| 2 <= j < i ==> is_hex_digit(#[trigger] chars@[j]),
            decreases n - i,
        {
            if !hex_digit(chars[i]) {
                return Err(
                    EnsError::InvalidName(String::from_str("Address contains non-hex characters")),
                );
            }
            i = i + 1;
        }
        Ok(())
    }

    /// Notes at `now` that `name` resolves to `address`, in both directions.
    pub fn cache_result(&mut self, name: &str, address: &str, avatar: &Option<String>, now: u64)
        ensures
            final(self)@ == old(self)@.remember(name@, address@, name_view(*avatar), now),
    {
        let ghost before = self@;
        let entry = CacheEntry {
            address: String::from_str(address),
            avatar: copy_name(avatar),
            stored_at: now,
        };
        let back = CacheEntry {
            address: String::from_str(name),
            avatar: copy_name(avatar),
            stored_at: now,
        };
        self.cache.insert(String::from_str(name), entry);
        self.reverse_cache.insert(lowercase(address), back);
        assert(self@.cache =~= before.remember(name@, address@, name_view(*avatar), now).cache);
        assert(self@.reverse =~= before.remember(
            name@,
            address@,
            name_view(*avatar),
            now,
        ).reverse);
    }

    /// Whether an entry stored at `stored_at` still counts at `now`.
    fn still_fresh(&self, stored_at: u64, now: u64) -> (fresh: bool)
        ensures
            fresh == (stored_at + self@.ttl > now),
    {
        now < stored_at || now - stored_at < self.cache_ttl
    }

    /// The first step in resolving `name` at `now`. Nothing is noted.
    pub fn begin_resolve(&self, name: &str, now: u64) -> (action: ResolveAction)
        ensures
            action@ == self@.first_step(name@, now),
    {
        match Self::validate_name(name) {
            Err(fault) => {
                return ResolveAction::Finish(Err(fault));
            },
            Ok(()) => {},
        }
        let key = lowercase(name);
        match self.cache.get(key.as_str()) {
            Some(entry) => {
                if self.still_fresh(entry.stored_at, now) {
                    return ResolveAction::Finish(
                        Ok(
                            EnsResult {
                                address: entry.address.clone(),
                                avatar: copy_name(&entry.avatar),
                            },
                        ),
                    );
                }
            },
            None => {},
        }
        ResolveAction::AskApi(key)
    }

    /// The step after the lookup service was asked for `name`: its answer is
    /// noted under the name in lower case and is the outcome; without an
    /// answer the subgraph is asked next.
    pub fn api_answered(
        &mut self,
        name: &str,
        outcome: Result<EnsResult, EnsError>,
        now: u64,
    ) -> (action: ResolveAction)
        ensures
            match outcome {
                Ok(found) => {
                    &&& action@ == ResolveActionView::Finish(Ok(found@))
                    &&& final(self)@ == old(self)@.remember(
                        lowercase_of(name@),
                        found@.address,
                        found@.avatar,
                        now,
                    )
                },
                Err(_) => {
                    &&& action@ == ResolveActionView::AskSubgraph(lowercase_of(name@))
                    &&& final(self)@ == old(self)@
                },
            },
    {
        let key = lowercase(name);
        match outcome {
            Ok(found) => {
                self.cache_result(key.as_str(), found.address.as_str(), &found.avatar, now);
                ResolveAction::Finish(Ok(found))
            },
            Err(_) => ResolveAction::AskSubgraph(key),
        }
    }

    /// The step after the subgraph was asked for `name`: its answer is noted
    /// under the name in lower case and is the outcome; without an answer
    /// the name is not found.
    pub fn subgraph_answered(
        &mut self,
        name: &str,
        outcome: Result<EnsResult, EnsError>,
        now: u64,
    ) -> (r: Result<EnsResult, EnsError>)
        ensures
            match outcome {
                Ok(found) => {
                    &&& outcome_view(r) == Ok::<EnsResultView, EnsErrorView>(found@)
                    &&& final(self)@ == old(self)@.remember(
                        lowercase_of(name@),
                        found@.address,
                        found@.avatar,
                        now,
                    )
                },
                Err(_) => {
                    &&& outcome_view(r) == Err::<EnsResultView, EnsErrorView>(
                        EnsErrorView::NotFound(name@),
                    )
                    &&& final(self)@ == old(self)@
                },
            },
    {
        match outcome {
            Ok(found) => {
                let key = lowercase(name);
                self.cache_result(key.as_str(), found.address.as_str(), &found.avatar, now);
                Ok(found)
            },
            Err(_) => Err(EnsError::NotFound(String::from_str(name))),
        }
    }

    /// The first step in looking up the name of `address` at `now`. Nothing
    /// is noted.
    pub fn begin_reverse(&self, address: &str, now: u64) -> (action: ReverseAction)
        ensures
            action@ == self@.first_reverse_step(address@, now),
    {
        match Self::validate_address(address) {
            Err(fault) => {
                return ReverseAction::Finish(Err(fault));
            },
            Ok(()) => {},
        }
        let key = lowercase(address);
        match self.reverse_cache.get(key.as_str()) {
            Some(entry) => {
                if self.still_fresh(entry.stored_at, now) {
                    return ReverseAction::Finish(Ok(Some(entry.address.clone())));
                }
            },
            None => {},
        }
        ReverseAction::AskApi(key)
    }

    /// The step after the lookup service was asked for the name of `address`:
    /// a name is noted under the address in lower case and is the outcome;
    /// no name, or a failure, means that the address has none.
    pub fn reverse_answered(
        &mut self,
        address: &str,
        outcome: Result<Option<String>, EnsError>,
        now: u64,
    ) -> (r: Result<Option<String>, EnsError>)
        ensures
            match outcome {
                Ok(Some(name)) => reverse_outcome_view(r) == Ok::<Option<Seq<char>>, EnsErrorView>(
                    Some(name@),
                ) && final(self)@ == old(self)@.remember_name(lowercase_of(address@), name@, now),
                _ => reverse_outcome_view(r) == Ok::<Option<Seq<char>>, EnsErrorView>(None)
                    && final(self)@ == old(self)@,
            },
    {
        match outcome {
            Ok(Some(name)) => {
                let ghost before = self@;
                let entry = CacheEntry { address: name.clone(), avatar: None, stored_at: now };
                self.reverse_cache.insert(lowercase(address), entry);
                assert(self@.reverse =~= before.remember_name(
                    lowercase_of(address@),
                    name@,
                    now,
                ).reverse);
                Ok(Some(name))
            },
            _ => Ok(None),
        }
    }
}

/// A name noted is found again while it is fresh: within `ttl` milliseconds
/// of `now`, the first step for the same key answers with what was noted.
pub proof fn lemma_remembered_is_cached(
    service: EnsServiceView,
    key: Seq<char>,
    address: Seq<char>,
    avatar: Option<Seq<char>>,
    now: u64,
    later: u64,
)
    requires
        later < now + service.ttl,
    ensures
        service.remember(key, address, avatar, now).cached(key, later) == Some(
            EnsResultView { address, avatar },
        ),
        service.remember(key, address, avatar, now).reverse_cached(lowercase_of(address), later)
            == Some(key),
{
}

} // verus!

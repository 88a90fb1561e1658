//! JSON documents as the resolvers and the quote service send them: parsed by
//! `serde_json` and read member by member. A document is opaque here: what it
//! holds is known only by what reading it returns, and what a read returns
//! has a name.

use crate::text::text_view;
use vstd::prelude::*;

verus! {

#[verifier::external_type_specification]
#[verifier::external_body]
pub struct ExValue(serde_json::Value);

#[verifier::external_type_specification]
#[verifier::external_body]
pub struct ExError(serde_json::Error);

/// The member of `value` under `key`, as `serde_json::Value::get` gives it for
/// a string: the value found there in an object, and nothing in any other
/// document.
pub uninterp spec fn member_of(value: serde_json::Value, key: Seq<char>) -> Option<
    serde_json::Value,
>;

/// The element of `value` at `at`, as `serde_json::Value::get` gives it for a
/// number: the value found there in an array, and nothing in any other
/// document.
pub uninterp spec fn element_of(value: serde_json::Value, at: usize) -> Option<serde_json::Value>;

/// The text of `value`, as `serde_json::Value::as_str` gives it: the text of a
/// string, and nothing for any other document.
pub uninterp spec fn text_in(value: serde_json::Value) -> Option<Seq<char>>;

/// One step into a document: to the member under a key, or to the element at
/// a place.
pub enum Step {
    Key(Seq<char>),
    Index(usize),
}

/// What one step into `value` leads to, if anything.
pub open spec fn step_into(value: serde_json::Value, step: Step) -> Option<serde_json::Value> {
    match step {
        Step::Key(key) => member_of(value, key),
        Step::Index(at) => element_of(value, at),
    }
}

/// What the steps of `path`, taken one after another from `value`, lead to;
/// nothing where one of them leads nowhere.
pub open spec fn descend(value: serde_json::Value, path: Seq<Step>) -> Option<serde_json::Value>
    decreases path.len(),
{
    if path.len() == 0 {
        Some(value)
    } else {
        match step_into(value, path[0]) {
            Some(inner) => descend(inner, path.drop_first()),
            None => None,
        }
    }
}

/// The text that stands in `value` at the end of `path`; nothing where the
/// path leads nowhere or ends at something other than a string.
pub open spec fn text_at(value: serde_json::Value, path: Seq<Step>) -> Option<Seq<char>> {
    match descend(value, path) {
        Some(inner) => text_in(inner),
        None => None,
    }
}

/// A path of one more step leads to what that step leads to from where the
/// path before it ends.
pub proof fn lemma_descend_push(value: serde_json::Value, path: Seq<Step>, step: Step)
    ensures
        descend(value, path.push(step)) == match descend(value, path) {
            Some(inner) => step_into(inner, step),
            None => None,
        },
    decreases path.len(),
{
    let longer = path.push(step);
    if path.len() == 0 {
        assert(longer[0] == step);
        assert(longer.drop_first() =~= Seq::<Step>::empty());
        match step_into(value, step) {
            Some(inner) => {
                assert(descend(inner, longer.drop_first()) == Some(inner));
            },
            None => {},
        }
    } else {
        assert(longer[0] == path[0]);
        assert(longer.drop_first() =~= path.drop_first().push(step));
        match step_into(value, path[0]) {
            Some(inner) => {
                lemma_descend_push(inner, path.drop_first(), step);
            },
            None => {},
        }
    }
}

/// Parses a document with `serde_json::from_str`. Which texts parse, and to
/// what, is left to `serde_json`.
#[verifier::external_body]
pub(crate) fn parse_document(text: &str) -> (r: Result<serde_json::Value, serde_json::Error>) {
    serde_json::from_str(text)
}

/// What `serde_json::Error` says of itself through `Display`.
#[verifier::external_body]
pub(crate) fn fault_text(fault: &serde_json::Error) -> (text: String) {
    fault.to_string()
}

/// The member under `key`, by `serde_json::Value::get` with a string: `None`
/// where the value is no object or has no such member. The contract gives
/// what is found its name, `member_of`, and claims no more than that: the
/// same document and key give the same member.
#[verifier::external_body]
pub(crate) fn member<'a>(value: &'a serde_json::Value, key: &str) -> (found: Option<
    &'a serde_json::Value,
>)
    ensures
        match found {
            Some(inner) => member_of(*value, key@) == Some(*inner),
            None => member_of(*value, key@) is None,
        },
{
    value.get(key)
}

/// The element at `at`, by `serde_json::Value::get` with a number: `None`
/// where the value is no array or is too short. The contract gives what is
/// found its name, `element_of`, and claims no more than that: the same
/// document and place give the same element.
#[verifier::external_body]
pub(crate) fn element<'a>(value: &'a serde_json::Value, at: usize) -> (found: Option<
    &'a serde_json::Value,
>)
    ensures
        match found {
            Some(inner) => element_of(*value, at) == Some(*inner),
            None => element_of(*value, at) is None,
        },
{
    value.get(at)
}

/// The text of a string value, by `serde_json::Value::as_str`: `None` where
/// the value is no string. The contract gives the text its name, `text_in`,
/// and claims no more than that: the same document gives the same text.
#[verifier::external_body]
pub(crate) fn text_of<'a>(value: &'a serde_json::Value) -> (text: Option<&'a str>)
    ensures
        text_view(text) == text_in(*value),
{
    value.as_str()
}

/// The number of a value that is a number within 64 bits and not negative, by
/// `serde_json::Value::as_u64`: `None` for any other value.
#[verifier::external_body]
pub(crate) fn number_of(value: &serde_json::Value) -> (number: Option<u64>) {
    value.as_u64()
}

/// The text under `key`, if the value has a string there.
pub(crate) fn text_member<'a>(value: &'a serde_json::Value, key: &str) -> (text: Option<&'a str>)
    ensures
        text_view(text) == text_at(*value, seq![Step::Key(key@)]),
{
    proof {
        lemma_descend_push(*value, Seq::empty(), Step::Key(key@));
        assert(Seq::<Step>::empty().push(Step::Key(key@)) =~= seq![Step::Key(key@)]);
    }
    match member(value, key) {
        Some(inner) => text_of(inner),
        None => None,
    }
}

} // verus!

//! Fresh identifiers for sessions and payments.

use vstd::prelude::*;

verus! {

/// Draws a random identifier with `uuid::Uuid::new_v4` and writes it with the
/// `Display` of `Uuid`: the hyphenated form, which is always 36 characters
/// long. Which identifier comes back is left open: it is random.
#[verifier::external_body]
pub(crate) fn fresh_id() -> (id: String)
    ensures
        id@.len() == 36,
{
    uuid::Uuid::new_v4().to_string()
}

} // verus!

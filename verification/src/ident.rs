//! Fresh identifiers for events, agents and consumer groups.

use vstd::prelude::*;

verus! {

/// The number of characters of an identifier in hyphenated form.
pub const ID_LEN: usize = 36;

/// Calls `uuid::Uuid::new_v4` and renders the result with its `Display`
/// impl, which writes the hyphenated lower-case form: 32 hexadecimal digits
/// in five groups separated by four hyphens. The digits are random, so the
/// contract states the length only.
#[verifier::external_body]
pub(crate) fn random_uuid() -> (id: String)
    ensures
        id@.len() == ID_LEN,
{
    uuid::Uuid::new_v4().to_string()
}

/// A fresh identifier, unique with overwhelming probability.
pub fn fresh_id() -> (id: String)
    ensures
        id@.len() == ID_LEN,
{
    random_uuid()
}

} // verus!

//! Opaque identifier generation, through the `uuid` crate.

use vstd::prelude::*;

verus! {

/// Relies on `uuid::Uuid::new_v4` and its `Display` impl, which renders
/// the hyphenated form: 36 characters, each a lowercase hex digit or a
/// hyphen, so never a path separator. The value itself is random and
/// nothing more is assumed of it: freshness is always re-checked against
/// the store.
#[verifier::external_body]
pub fn new_uuid() -> (r: String)
    ensures
        r@.len() == 36,
        !r@.contains('/'),
{
    uuid::Uuid::new_v4().to_string()
}

} // verus!

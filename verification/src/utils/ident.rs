//! Identifiers for new rows.

use vstd::prelude::*;

verus! {

/// A new identifier from `cuid2::create_id`: a letter, followed by digits
/// and letters. It is drawn from the clock, a counter and random bits, so of
/// its value only this is stated: it is not empty.
#[verifier::external_body]
pub(crate) fn fresh_id() -> (id: String)
    ensures
        id@.len() >= 1,
{
    cuid2::create_id()
}

} // verus!

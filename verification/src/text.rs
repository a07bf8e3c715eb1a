//! Comparing texts.

use vstd::prelude::*;

verus! {

/// Calls `==` of `str`, which `std` documents as equality of the two texts:
/// the result is true exactly when both hold the same characters in the
/// same order.
#[verifier::external_body]
pub(crate) fn same_text(a: &str, b: &str) -> (same: bool)
    ensures
        same == (a@ == b@),
{
    a == b
}

} // verus!

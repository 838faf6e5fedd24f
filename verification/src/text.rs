//! Comparing string slices.

use vstd::prelude::*;

verus! {

/// Whether two string slices hold the same characters.
///
/// Trusted: calls `str`'s `==` from the standard library, which compares the
/// two slices byte for byte. Equal UTF-8 encodings are equal character
/// sequences, which is what the contract states.
#[verifier::external_body]
pub(crate) fn same_text(a: &str, b: &str) -> (same: bool)
    ensures
        same == (a@ == b@),
{
    a == b
}

} // verus!

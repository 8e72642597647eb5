//! Comparison of texts.

use vstd::prelude::*;

verus! {

/// `str`'s `==`: whether the two texts are the same characters.
#[verifier::external_body]
pub(crate) fn text_is(a: &str, b: &str) -> (r: bool)
    ensures
        r == (a@ == b@),
{
    a == b
}

} // verus!

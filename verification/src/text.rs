//! String comparison for the rule's exact-match checks.

use vstd::prelude::*;

verus! {

/// Relies on `<str as PartialEq>::eq`: two string slices compare equal
/// exactly when they hold the same characters.
#[verifier::external_body]
pub fn str_eq(a: &str, b: &str) -> (r: bool)
    ensures
        r == (a@ == b@),
{
    a == b
}

} // verus!

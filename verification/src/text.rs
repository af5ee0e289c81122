//! Small executable helpers over strings that the rest of the library builds
//! on: equality of string slices and suffix tests, stated over the character
//! views.

use vstd::prelude::*;

verus! {

/// Compares two string slices, character for character.
pub fn str_eq(a: &str, b: &str) -> (r: bool)
    ensures
        r == (a@ == b@),
{
    let sa: String = a.to_owned();
    let sb: String = b.to_owned();
    sa == sb
}

} // verus!

//! Comparison of names.

use vstd::prelude::*;

verus! {

/// A character, with an ASCII capital letter turned into its small letter.
pub open spec fn ascii_lower(c: char) -> char {
    if 'A' <= c && c <= 'Z' {
        ((c as int) + 32) as char
    } else {
        c
    }
}

/// A name with every ASCII capital letter turned into its small letter.
pub open spec fn ascii_lowercase(name: Seq<char>) -> Seq<char> {
    Seq::new(name.len(), |i: int| ascii_lower(name[i]))
}

/// Whether two names are the same but for the case of their ASCII letters.
pub open spec fn eq_ignore_ascii_case(a: Seq<char>, b: Seq<char>) -> bool {
    ascii_lowercase(a) == ascii_lowercase(b)
}

/// Equality of two string slices, `str`'s `==` of the standard library. The
/// contract is not proved; it says what the standard library documents: two
/// string slices are equal exactly when they hold the same characters in the
/// same order.
#[verifier::external_body]
pub(crate) fn str_eq(a: &str, b: &str) -> (same: bool)
    ensures
        same == (a@ == b@),
{
    a == b
}

} // verus!

//! Slugs are case-insensitive post identifiers whose canonical form is lower case.
use vstd::prelude::*;

verus! {

/// What `str::to_lowercase` returns for a string; it depends on the characters alone.
pub uninterp spec fn lower_of(s: Seq<char>) -> Seq<char>;

/// Relies on `str::to_lowercase`: the Unicode lowercase form of the string.
#[verifier::external_body]
pub(crate) fn to_lower(s: &str) -> (r: String)
    ensures
        r@ == lower_of(s@),
{
    s.to_lowercase()
}

/// A slug is canonical when lowering it changes nothing.
pub open spec fn is_canonical(s: Seq<char>) -> bool {
    lower_of(s) == s
}

} // verus!

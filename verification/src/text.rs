//! Case-insensitive comparison of labels.
//!
//! City names, prompt texts and choice labels are compared without regard to
//! letter case. The lowering itself is the standard library's; this module
//! gives its result a name and builds the comparison on it.

use vstd::prelude::*;

verus! {

/// The lower-case form of a text, as `str::to_lowercase` computes it.
pub uninterp spec fn lowercase(s: Seq<char>) -> Seq<char>;

/// Trusted: `str::to_lowercase` depends on the characters of its argument
/// alone, so its result is `lowercase` of them. Nothing else is claimed
/// about what that result is.
pub assume_specification[ str::to_lowercase ](s: &str) -> (res: String)
    ensures
        res@ == lowercase(s@),
;

/// Two texts are the same when their lower-case forms are equal.
pub open spec fn same_text(a: Seq<char>, b: Seq<char>) -> bool {
    lowercase(a) == lowercase(b)
}

/// Compares two labels without regard to letter case.
pub fn str_eq(s1: &'static str, s2: &'static str) -> (same: bool)
    ensures
        same == same_text(s1@, s2@),
{
    s1.to_lowercase() == s2.to_lowercase()
}

/// Being the same text is an equivalence: reflexive, symmetric and
/// transitive.
pub proof fn lemma_same_text_equivalence(a: Seq<char>, b: Seq<char>, c: Seq<char>)
    ensures
        same_text(a, a),
        same_text(a, b) == same_text(b, a),
        same_text(a, b) && same_text(b, c) ==> same_text(a, c),
{
}

} // verus!

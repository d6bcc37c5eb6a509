//! The trusted boundary to the Unicode-normalization collaborator.

use unicode_normalization::UnicodeNormalization;
use vstd::prelude::*;

verus! {

/// The canonical composition (NFC) of a character sequence.  Normalization
/// is a function of the characters alone, so equal inputs normalize equally,
/// in every process and on every run.
pub uninterp spec fn nfc_of(s: Seq<char>) -> Seq<char>;

/// Relies on `UnicodeNormalization::nfc` for `&str`: canonical composition
/// of the string into a character sequence, depending on the characters
/// alone; an empty string stays empty.
#[verifier::external_body]
pub(crate) fn nfc_chars(s: &str) -> (r: Vec<char>)
    ensures
        r@ == nfc_of(s@),
        s@.len() == 0 ==> r@.len() == 0,
{
    s.nfc().collect()
}

/// Normalization is deterministic and repeatable: equal inputs have equal
/// canonical compositions, whether the input was precomposed or decomposed.
pub proof fn lemma_nfc_deterministic(s1: Seq<char>, s2: Seq<char>)
    requires
        s1 == s2,
    ensures
        nfc_of(s1) == nfc_of(s2),
{
}

} // verus!

//! Comparison of identifiers with fixed words.

use vstd::prelude::*;
use vstd::string::StringSliceAdditionalSpecFns;
use vstd::utf8::encode_utf8_decode_utf8;

verus! {

/// Whether `text` spells exactly `word`.
///
/// The two are compared byte by byte. Equal encodings mean equal
/// characters, because an encoding decodes to one text only.
pub(crate) fn spells(text: &str, word: &str) -> (r: bool)
    ensures
        r == (text@ == word@),
{
    let left = text.as_bytes();
    let right = word.as_bytes();
    if left.len() != right.len() {
        return false;
    }
    let mut i: usize = 0;
    while i < left.len()
        invariant
            i <= left.len(),
            left.len() == right.len(),
            left@ == text.spec_bytes(),
            right@ == word.spec_bytes(),
            forall|j: int| 0 <= j < i ==> left[j] == right[j],
        decreases left.len() - i,
    {
        if left[i] != right[i] {
            return false;
        }
        i += 1;
    }
    proof {
        assert(left@ =~= right@);
        encode_utf8_decode_utf8(text@);
        encode_utf8_decode_utf8(word@);
    }
    true
}

} // verus!

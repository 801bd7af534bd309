//! Titles, descriptions and names: texts measured in bytes.

use vstd::prelude::*;
use vstd::utf8::{encode_utf8, encode_utf8_decode_utf8};

verus! {

/// The longest title of a market or a proposal, in bytes.
pub const MAX_TITLE_LEN: usize = 128;

/// The longest description of a market or a proposal, in bytes.
pub const MAX_DESCRIPTION_LEN: usize = 512;

/// A text that is not empty and takes at most `limit` bytes as UTF-8.
pub open spec fn text_fits(text: Seq<char>, limit: nat) -> bool {
    text.len() > 0 && encode_utf8(text).len() <= limit
}

/// Whether `text` is not empty and takes at most `limit` bytes.
pub(crate) fn text_in_bounds(text: &str, limit: usize) -> (fits: bool)
    ensures
        fits == text_fits(text@, limit as nat),
{
    !text.is_empty() && text.as_bytes().len() <= limit
}

/// Whether two texts are the same, found by comparing their bytes.
pub(crate) fn text_equal(a: &str, b: &str) -> (same: bool)
    ensures
        same == (a@ == b@),
{
    let left = a.as_bytes();
    let right = b.as_bytes();
    proof {
        encode_utf8_decode_utf8(a@);
        encode_utf8_decode_utf8(b@);
    }
    if left.len() != right.len() {
        return false;
    }
    let mut i: usize = 0;
    while i < left.len()
        invariant
            left@ == encode_utf8(a@),
            right@ == encode_utf8(b@),
            left@.len() == right@.len(),
            i <= left@.len(),
            forall|j: int| 0 <= j < i ==> left@[j] == right@[j],
        decreases left@.len() - i,
    {
        if left[i] != right[i] {
            return false;
        }
        i = i + 1;
    }
    assert(left@ =~= right@);
    true
}

} // verus!

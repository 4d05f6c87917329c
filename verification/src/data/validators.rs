//! Validation of player input about games.

use vstd::prelude::*;
use vstd::string::{StrSliceExecFns, StringSliceAdditionalSpecFns};

verus! {

/// The characters a Clash Royale tag is made of: digits and capital letters.
pub open spec fn is_tag_char(c: char) -> bool {
    ('0' <= c && c <= '9') || ('A' <= c && c <= 'Z')
}

/// A Clash Royale tag: 6 to 15 bytes long, made of digits and capital letters.
pub open spec fn valid_clash_royale_tag(tag: &str) -> bool {
    &&& 6 <= tag.len() <= 15
    &&& forall|i: int| 0 <= i < tag@.len() ==> is_tag_char(#[trigger] tag@[i])
}

/// Whether `tag` is a well-formed Clash Royale player tag.
pub fn clash_royale_tag_validator(tag: &str) -> (r: bool)
    ensures
        r == valid_clash_royale_tag(tag),
{
    let len = tag.len();
    if len < 6 || len > 15 {
        return false;
    }
    let count = tag.unicode_len();
    let mut i: usize = 0;
    while i < count
        invariant
            count == tag@.len(),
            0 <= i <= count,
            6 <= tag.len() <= 15,
            forall|j: int| 0 <= j < i ==> is_tag_char(#[trigger] tag@[j]),
        decreases count - i,
    {
        let c = tag.get_char(i);
        if !(('0' <= c && c <= '9') || ('A' <= c && c <= 'Z')) {
            return false;
        }
        i = i + 1;
    }
    true
}

} // verus!

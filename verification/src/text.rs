//! Small helpers on text.

use vstd::prelude::*;

verus! {

/// Whether `text` ends with `suffix`.
pub open spec fn ends_with(text: Seq<char>, suffix: Seq<char>) -> bool {
    &&& suffix.len() <= text.len()
    &&& text.subrange(text.len() - suffix.len(), text.len() as int) == suffix
}

/// Whether two string slices hold the same characters.
pub fn same_text(a: &str, b: &str) -> (same: bool)
    ensures
        same == (a@ == b@),
{
    let left = a.to_owned();
    let right = b.to_owned();
    left == right
}

} // verus!

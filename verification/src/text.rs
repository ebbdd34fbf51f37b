//! Comparing texts.
use vstd::prelude::*;

verus! {

/// Whether two texts are equal, character for character.
pub fn same_text(a: &str, b: &str) -> (res: bool)
    ensures
        res == (a@ == b@),
{
    let x = a.to_owned();
    let y = b.to_owned();
    x == y
}

} // verus!

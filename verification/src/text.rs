//! Helpers over the characters of a string.

use vstd::prelude::*;

verus! {

/// Whether `text` holds the character `c`.
pub fn has_char(text: &str, c: char) -> (found: bool)
    ensures
        found == text@.contains(c),
{
    let mut found = false;
    for x in it: text.chars()
        invariant
            it.seq() == text@,
            found == exists|j: int| 0 <= j < it.index() && text@[j] == c,
    {
        if x == c {
            found = true;
        }
    }
    found
}

} // verus!

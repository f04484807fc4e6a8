//! Small letters.

use vstd::prelude::*;

verus! {

/// The small letter of a capital letter of the Latin alphabet, any other
/// character as it is.
pub open spec fn small(c: char) -> char {
    if 'A' <= c && c <= 'Z' {
        ((c as u32) + 32) as char
    } else {
        c
    }
}

/// The text with each capital letter of the Latin alphabet made small.
pub open spec fn in_small_letters(s: Seq<char>) -> Seq<char> {
    Seq::new(s.len(), |i: int| small(s[i]))
}

} // verus!

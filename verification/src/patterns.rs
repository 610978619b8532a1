//! Matching a value against a few patterns of interest and passing over
//! the rest.

use vstd::prelude::*;

verus! {

/// The word for an odd digit below nine that has one here.
pub open spec fn odd_word(n: u8) -> Option<Seq<char>> {
    if n == 1 {
        Some("one"@)
    } else if n == 3 {
        Some("three"@)
    } else if n == 5 {
        Some("five"@)
    } else if n == 7 {
        Some("seven"@)
    } else {
        None
    }
}

/// Names 1, 3, 5 and 7 in words; any other number has no name.
pub fn name_odd(n: u8) -> (word: Option<&'static str>)
    ensures
        match odd_word(n) {
            Some(text) => word is Some && word->0@ == text,
            None => word is None,
        },
{
    match n {
        1 => Some("one"),
        3 => Some("three"),
        5 => Some("five"),
        7 => Some("seven"),
        _ => None,
    }
}

/// Returns the line `3` when `x` holds exactly 3, and nothing otherwise,
/// whether `x` is absent or holds another number.
pub fn only_three(x: Option<u8>) -> (line: Option<&'static str>)
    ensures
        x == Some(3u8) ==> line is Some && line->0@ == "3"@,
        x != Some(3u8) ==> line is None,
{
    match x {
        Some(3) => Some("3"),
        _ => None,
    }
}

/// Returns the line `3` when `x` holds exactly 3, and the line `not 3`
/// otherwise, whether `x` is absent or holds another number.
pub fn three_or_not(x: Option<u8>) -> (line: &'static str)
    ensures
        x == Some(3u8) ==> line@ == "3"@,
        x != Some(3u8) ==> line@ == "not 3"@,
{
    if let Some(3) = x {
        "3"
    } else {
        "not 3"
    }
}

} // verus!

//! Contracts for the two methods of `String` that the input buffer needs
//! and vstd leaves unspecified. Verus takes them on trust.

use vstd::prelude::*;

verus! {

/// Specifies `String::push`: the character is appended to the end. As vstd
/// does for `Vec::push`, this leaves aside a buffer that outgrows memory.
pub assume_specification[ String::push ](s: &mut String, ch: char)
    ensures
        final(s)@ == old(s)@.push(ch),
;

/// Specifies `String::pop`: the last character is removed and returned, and
/// an empty string gives `None` and stays empty.
pub assume_specification[ String::pop ](s: &mut String) -> (last: Option<char>)
    ensures
        old(s)@.len() == 0 ==> last is None && final(s)@ == old(s)@,
        old(s)@.len() > 0 ==> last == Some(old(s)@.last()) && final(s)@ == old(s)@.drop_last(),
;

} // verus!

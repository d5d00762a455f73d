//! What the chat relies on of `String`, stated over the string's characters.

use vstd::prelude::*;

verus! {

/// `String::push`: the string afterwards is the string before with `ch` added
/// at its end.
pub assume_specification[ String::push ](s: &mut String, ch: char)
    ensures
        final(s)@ == old(s)@.push(ch),
;

/// `String::pop`: an empty string stays empty and `None` is returned; from any
/// other the last character is removed and returned.
pub assume_specification[ String::pop ](s: &mut String) -> (last: Option<char>)
    ensures
        old(s)@.len() == 0 ==> last is None && final(s)@ == old(s)@,
        old(s)@.len() > 0 ==> last == Some(old(s)@.last()) && final(s)@ == old(s)@.drop_last(),
;

} // verus!

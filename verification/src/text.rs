//! What the text buffers rely on from the standard `String`.
//!
//! A buffer is read through its view, the sequence of its characters. The
//! three editing methods below are taken on trust: each statement repeats
//! what the standard library documents and is not proved here.

use vstd::prelude::*;

verus! {

/// `String::push` appends the given character to the end of the string:
/// afterwards the string is the old one followed by that one character.
pub assume_specification[ String::push ](s: &mut String, ch: char)
    ensures
        final(s)@ == old(s)@.push(ch),
;

/// `String::pop` removes the last character and returns it, or returns
/// `None` and leaves the string as it is when the string is empty.
pub assume_specification[ String::pop ](s: &mut String) -> (r: Option<char>)
    ensures
        old(s)@.len() == 0 ==> r.is_none() && final(s)@ == old(s)@,
        old(s)@.len() > 0 ==> r == Some(old(s)@.last()) && final(s)@ == old(s)@.drop_last(),
;

/// `String::clear` removes all contents: afterwards the string is empty.
pub assume_specification[ String::clear ](s: &mut String)
    ensures
        final(s)@ == Seq::<char>::empty(),
;

} // verus!

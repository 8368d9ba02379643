//! Building the messages that errors carry.

use vstd::prelude::*;

verus! {

/// `String::push_str` appends the characters of `tail` to the string.
pub assume_specification[ String::push_str ](s: &mut String, tail: &str)
    ensures
        final(s)@ == old(s)@ + tail@,
;

/// The text of `head` followed by the text of `tail`.
pub fn join(head: &str, tail: &str) -> (joined: String)
    ensures
        joined@ == head@ + tail@,
{
    let mut joined = head.to_string();
    joined.push_str(tail);
    joined
}

} // verus!

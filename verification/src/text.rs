//! What this library takes on trust about the standard library's strings.
//!
//! Nothing here is proved: each contract restates what the documentation of
//! the standard function promises, over the string's sequence of characters.

use vstd::prelude::*;

verus! {

/// `String::push` appends the character to the end of the string and leaves
/// every earlier character where it was.
pub assume_specification[ String::push ](s: &mut String, ch: char)
    ensures
        final(s)@ == old(s)@.push(ch),
;

/// `String::pop` removes the last character and returns it; on the empty
/// string it returns `None` and changes nothing.
pub assume_specification[ String::pop ](s: &mut String) -> (last: Option<char>)
    ensures
        old(s)@.len() == 0 ==> last is None && final(s)@ == old(s)@,
        old(s)@.len() > 0 ==> last == Some(old(s)@.last()) && final(s)@ == old(s)@.drop_last(),
;

/// `str::starts_with`, called with a string as the pattern: true exactly when
/// the characters of `prefix` are the first characters of `text`, compared
/// one for one with no folding of case.
#[verifier::external_body]
pub(crate) fn starts_with(text: &str, prefix: &str) -> (found: bool)
    ensures
        found == prefix@.is_prefix_of(text@),
{
    text.starts_with(prefix)
}

} // verus!

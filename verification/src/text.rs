//! Building texts one character at a time.

use vstd::prelude::*;

verus! {

/// Calls `String::push`. Trusted: the text afterwards is the text before
/// with the one character added at its end.
#[verifier::external_body]
pub(crate) fn push_char(text: &mut String, c: char)
    ensures
        final(text)@ == old(text)@.push(c),
{
    text.push(c)
}

} // verus!

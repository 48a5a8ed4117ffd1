//! The one place where this crate leans on an unspecified piece of the
//! standard library: appending a character to a `String`.

use vstd::prelude::*;

verus! {

/// Relies on `String::push`: appends the character to the end of the
/// string, leaving everything before it unchanged.
#[verifier::external_body]
pub fn push_char(s: &mut String, c: char)
    ensures
        final(s)@ == old(s)@.push(c),
{
    s.push(c)
}

} // verus!

//! Functions that borrow a string instead of taking it over.

use vstd::prelude::*;
use vstd::string::StringExecFns;
use vstd::utf8::encode_utf8;

verus! {

/// The length of a borrowed string, in bytes of its UTF-8 encoding. The
/// string stays with the caller.
pub fn calculate_length(s: &String) -> (length: usize)
    ensures
        length == encode_utf8(s@).len(),
{
    s.as_str().as_bytes().len()
}

/// Appends `", world!"` to a string borrowed mutably.
pub fn change(some_string: &mut String)
    ensures
        final(some_string)@ == old(some_string)@ + ", world!"@,
{
    some_string.append(", world!");
}

/// Hands out a string by value, so that nothing refers to a local that is gone.
pub fn no_dangle() -> (s: String)
    ensures
        s@ == "no dangling references here"@,
{
    let s = String::from_str("no dangling references here");
    s
}

} // verus!

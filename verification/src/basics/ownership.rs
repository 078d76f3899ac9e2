//! Functions that take a string over and give it back.

use vstd::prelude::*;
use vstd::string::StringExecFns;
use vstd::utf8::encode_utf8;

verus! {

/// Makes a string and moves it to the caller.
pub fn gives_ownership() -> (some_string: String)
    ensures
        some_string@ == "yours"@,
{
    let some_string = String::from_str("yours");
    some_string
}

/// Takes a string over and moves the same string back.
pub fn takes_and_gives_back(a_string: String) -> (same: String)
    ensures
        same == a_string,
{
    a_string
}

/// Takes a string over and moves it back together with its length, in bytes
/// of its UTF-8 encoding.
pub fn calculate_length(s: String) -> (pair: (String, usize))
    ensures
        pair.0 == s,
        pair.1 == encode_utf8(s@).len(),
{
    let length = s.as_str().as_bytes().len();
    (s, length)
}

/// Moves strings into and out of functions and lets them go at the end: what
/// was given comes back unchanged.
#[allow(non_snake_case)]
pub fn returnValuesAndScopePt1() {
    let s1 = gives_ownership();
    let s2 = String::from_str("hello");
    let s3 = takes_and_gives_back(s2);
    assert(s1@ == "yours"@);
    assert(s3@ == "hello"@);
}

} // verus!

//! Helpers for the borrowing walkthrough: reading a string through a
//! shared borrow and growing it through an exclusive one.

use vstd::prelude::*;
use vstd::string::StringExecFns;
use vstd::utf8::encode_utf8;

verus! {

/// The length in bytes of a borrowed string, read without taking
/// ownership.
pub fn calculate_length(s: &String) -> (len: usize)
    ensures
        len == encode_utf8(s@).len() as usize,
{
    s.as_str().len()
}

/// Append `", world"` to a string through an exclusive borrow.
pub fn change(some_string: &mut String)
    ensures
        final(some_string)@ == old(some_string)@ + ", world"@,
{
    some_string.append(", world");
}

} // verus!

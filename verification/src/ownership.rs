//! Helper for the ownership walkthrough: borrowing a string to measure it
//! instead of moving it.

use vstd::prelude::*;
use vstd::utf8::encode_utf8;

verus! {

/// The length in bytes of a borrowed string; the caller keeps ownership.
pub fn calculate_length(s: &String) -> (len: usize)
    ensures
        len == encode_utf8(s@).len() as usize,
{
    s.as_str().len()
}

} // verus!

//! Helper for the tuples walkthrough: returning two values at once.

use vstd::arithmetic::div_mod::lemma_div_is_ordered_by_denominator;
use vstd::arithmetic::div_mod::lemma_div_nonincreasing;
use vstd::arithmetic::div_mod::lemma_div_pos_is_pos;
use vstd::arithmetic::div_mod::lemma_mod_bound;
use vstd::prelude::*;

verus! {

/// The quotient of `x / d` as Rust computes it: truncated toward zero.
pub open spec fn truncated_quotient(x: int, d: int) -> int {
    if x == 0 {
        0
    } else if x > 0 && d > 0 {
        x / d
    } else if x < 0 && d < 0 {
        (x * -1) / (d * -1)
    } else if x < 0 {
        ((x * -1) / d) * -1
    } else {
        (x / (d * -1)) * -1
    }
}

/// The remainder of `x % d` as Rust computes it: it has the sign of the
/// dividend.
pub open spec fn truncated_remainder(x: int, d: int) -> int {
    if x == 0 {
        0
    } else if x > 0 && d > 0 {
        x % d
    } else if x < 0 && d < 0 {
        ((x * -1) % (d * -1)) * -1
    } else if x < 0 {
        ((x * -1) % d) * -1
    } else {
        x % (d * -1)
    }
}

/// Divide and take the remainder in one call, returning both values as a
/// tuple.
pub fn divide(dividend: i32, divisor: i32) -> (quotient_remainder: (i32, i32))
    requires
        divisor != 0,
        !(dividend == i32::MIN && divisor == -1),
    ensures
        quotient_remainder.0 == truncated_quotient(dividend as int, divisor as int),
        quotient_remainder.1 == truncated_remainder(dividend as int, divisor as int),
{
    proof {
        let x = dividend as int;
        let d = divisor as int;
        // the quotient and remainder always fit in an i32, so neither
        // checked operation returns None
        if x > 0 && d > 0 {
            lemma_div_pos_is_pos(x, d);
            lemma_div_nonincreasing(x, d);
            lemma_mod_bound(x, d);
        } else if x < 0 && d < 0 {
            lemma_div_pos_is_pos(x * -1, d * -1);
            lemma_div_nonincreasing(x * -1, d * -1);
            lemma_mod_bound(x * -1, d * -1);
            if x * -1 > i32::MAX {
                // x is i32::MIN and d <= -2, so the quotient is at most
                // 2^31 / 2
                lemma_div_is_ordered_by_denominator(x * -1, 2, d * -1);
            }
        } else if x < 0 && d > 0 {
            lemma_div_pos_is_pos(x * -1, d);
            lemma_div_nonincreasing(x * -1, d);
            lemma_mod_bound(x * -1, d);
        } else if x > 0 && d < 0 {
            lemma_div_pos_is_pos(x, d * -1);
            lemma_div_nonincreasing(x, d * -1);
            lemma_mod_bound(x, d * -1);
        }
    }
    let quotient = match dividend.checked_div(divisor) {
        Some(q) => q,
        None => 0,
    };
    let remainder = match dividend.checked_rem(divisor) {
        Some(r) => r,
        None => 0,
    };
    (quotient, remainder)
}

} // verus!

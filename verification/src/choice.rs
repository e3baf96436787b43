//! Reading a menu choice: trimming a line of input and parsing it as a
//! signed decimal integer.
//!
//! The controller reads one line per prompt, trims surrounding whitespace,
//! and parses the rest as an integer. A line whose trimmed form is not an
//! optionally signed run of decimal digits is a recoverable
//! [`ParseError`]: the loop reports it and goes on. A line that *is* such
//! a run is always a parsed integer, however large: a value beyond the
//! `i32` range is returned saturated to the nearest bound, which the
//! dispatch rule then reports as an out-of-range choice — not as a parse
//! failure ([`crate::menu::lemma_saturation_preserves_dispatch`]).

use vstd::prelude::*;
use vstd::string::StrSliceExecFns;

verus! {

/// Reading a line did not yield an integer: the line is reported and the
/// loop continues with the next prompt.
#[derive(Clone, Copy, Debug, PartialEq, Eq, Structural)]
pub struct ParseError;

/// The characters trimmed from a line: the Unicode whitespace set, as
/// `char::is_whitespace` defines it.
pub open spec fn is_whitespace_char(c: char) -> bool {
    let u = c as u32;
    u == 0x9 || u == 0xA || u == 0xB || u == 0xC || u == 0xD || u == 0x20 || u == 0x85
        || u == 0xA0 || u == 0x1680 || (0x2000 <= u && u <= 0x200A) || u == 0x2028 || u == 0x2029
        || u == 0x202F || u == 0x205F || u == 0x3000
}

/// Decide [`is_whitespace_char`] on one character.
fn is_whitespace(c: char) -> (white: bool)
    ensures
        white == is_whitespace_char(c),
{
    let u = c as u32;
    u == 0x9 || u == 0xA || u == 0xB || u == 0xC || u == 0xD || u == 0x20 || u == 0x85
        || u == 0xA0 || u == 0x1680 || (0x2000 <= u && u <= 0x200A) || u == 0x2028 || u == 0x2029
        || u == 0x202F || u == 0x205F || u == 0x3000
}

/// `s` without its leading whitespace.
pub open spec fn trim_front(s: Seq<char>) -> Seq<char>
    decreases s.len(),
{
    if s.len() > 0 && is_whitespace_char(s[0]) {
        trim_front(s.drop_first())
    } else {
        s
    }
}

/// `s` without its trailing whitespace.
pub open spec fn trim_back(s: Seq<char>) -> Seq<char>
    decreases s.len(),
{
    if s.len() > 0 && is_whitespace_char(s.last()) {
        trim_back(s.drop_last())
    } else {
        s
    }
}

/// `s` without leading and trailing whitespace.
pub open spec fn trimmed(s: Seq<char>) -> Seq<char> {
    trim_back(trim_front(s))
}

/// An ASCII decimal digit `'0'..='9'`.
pub open spec fn is_digit_char(c: char) -> bool {
    0x30 <= c as u32 && c as u32 <= 0x39
}

/// The numeric value of one decimal digit.
pub open spec fn digit_value(c: char) -> int {
    c as u32 - 0x30
}

/// Every character of `s` is a decimal digit.
pub open spec fn all_digits(s: Seq<char>) -> bool {
    forall|i: int| 0 <= i < s.len() ==> is_digit_char(#[trigger] s[i])
}

/// The value of a run of decimal digits read as a numeral.
pub open spec fn digits_value(s: Seq<char>) -> int
    decreases s.len(),
{
    if s.len() == 0 {
        0
    } else {
        digits_value(s.drop_last()) * 10 + digit_value(s.last())
    }
}

/// `s` starts with an explicit `+` or `-` sign.
pub open spec fn has_sign(s: Seq<char>) -> bool {
    s.len() > 0 && (s[0] == '+' || s[0] == '-')
}

/// The digit part of `s`: everything after the sign, if there is one.
pub open spec fn digits_of(s: Seq<char>) -> Seq<char> {
    if has_sign(s) {
        s.drop_first()
    } else {
        s
    }
}

/// `s` is an optionally signed, non-empty run of decimal digits: exactly
/// the strings that parse as an integer.
pub open spec fn is_integer_literal(s: Seq<char>) -> bool {
    digits_of(s).len() > 0 && all_digits(digits_of(s))
}

/// The mathematical value of an integer literal, of any magnitude.
pub open spec fn integer_literal_value(s: Seq<char>) -> int {
    if s.len() > 0 && s[0] == '-' {
        -digits_value(digits_of(s))
    } else {
        digits_value(digits_of(s))
    }
}

/// `x` clamped to the `i32` range. A menu choice beyond that range is
/// still an integer; since the menu never has anywhere near `i32::MAX`
/// topics, the clamped value dispatches exactly as the true value would.
pub open spec fn saturate_i32(x: int) -> int {
    if x < i32::MIN as int {
        i32::MIN as int
    } else if x > i32::MAX as int {
        i32::MAX as int
    } else {
        x
    }
}

/// When the first `i` characters of `s` are whitespace and character `i`
/// (if any) is not, trimming the front of `s` drops exactly those `i`
/// characters.
proof fn lemma_trim_front_is_suffix(s: Seq<char>, i: int)
    requires
        0 <= i <= s.len(),
        forall|j: int| 0 <= j < i ==> is_whitespace_char(#[trigger] s[j]),
        i == s.len() || !is_whitespace_char(s[i]),
    ensures
        trim_front(s) == s.subrange(i, s.len() as int),
    decreases i,
{
    if i == 0 {
        assert(trim_front(s) == s);
        assert(s.subrange(0, s.len() as int) =~= s);
    } else {
        assert(is_whitespace_char(s[0]));
        let t = s.drop_first();
        assert(forall|j: int| 0 <= j < i - 1 ==> is_whitespace_char(#[trigger] t[j]));
        lemma_trim_front_is_suffix(t, i - 1);
        assert(t.subrange(i - 1, t.len() as int) =~= s.subrange(i, s.len() as int));
    }
}

/// When every character of `s` from position `h` on is whitespace and
/// character `h - 1` (if any) is not, trimming the back of `s` keeps
/// exactly the first `h` characters.
proof fn lemma_trim_back_is_prefix(s: Seq<char>, h: int)
    requires
        0 <= h <= s.len(),
        forall|j: int| h <= j < s.len() ==> is_whitespace_char(#[trigger] s[j]),
        h == 0 || !is_whitespace_char(s[h - 1]),
    ensures
        trim_back(s) == s.subrange(0, h),
    decreases s.len(),
{
    if h == s.len() {
        if s.len() == 0 {
            assert(s.subrange(0, 0) =~= s);
        } else {
            assert(!is_whitespace_char(s.last()));
            assert(s.subrange(0, h) =~= s);
        }
    } else {
        assert(is_whitespace_char(s.last()));
        let t = s.drop_last();
        assert(forall|j: int| h <= j < t.len() ==> is_whitespace_char(#[trigger] t[j]));
        lemma_trim_back_is_prefix(t, h);
        assert(t.subrange(0, h) =~= s.subrange(0, h));
    }
}

/// A run of digits has a nonnegative value.
proof fn lemma_digits_value_nonneg(s: Seq<char>)
    requires
        all_digits(s),
    ensures
        digits_value(s) >= 0,
    decreases s.len(),
{
    if s.len() > 0 {
        assert(all_digits(s.drop_last()));
        lemma_digits_value_nonneg(s.drop_last());
    }
}

/// Parse one raw input line as a menu choice, as the controller does:
/// trim surrounding whitespace, then read an optionally signed decimal
/// integer. Returns `Ok` exactly when the trimmed line is an integer
/// literal — with the value saturated to the `i32` range — and
/// [`ParseError`] exactly when it is not.
pub fn read_choice(line: &str) -> (choice: Result<i32, ParseError>)
    ensures
        match choice {
            Ok(v) => is_integer_literal(trimmed(line@)) && v as int == saturate_i32(
                integer_literal_value(trimmed(line@)),
            ),
            Err(_) => !is_integer_literal(trimmed(line@)),
        },
{
    let len = line.unicode_len();
    let mut lo: usize = 0;
    loop
        invariant
            len == line@.len(),
            0 <= lo <= len,
            forall|j: int| 0 <= j < lo ==> is_whitespace_char(#[trigger] line@[j]),
        ensures
            0 <= lo <= len,
            forall|j: int| 0 <= j < lo ==> is_whitespace_char(#[trigger] line@[j]),
            lo == len || !is_whitespace_char(line@[lo as int]),
        decreases len - lo,
    {
        if lo == len {
            break;
        }
        if !is_whitespace(line.get_char(lo)) {
            break;
        }
        lo = lo + 1;
    }
    if lo == len {
        // the line is all whitespace: its trimmed form is empty
        proof {
            lemma_trim_front_is_suffix(line@, len as int);
            assert(trim_front(line@) =~= Seq::<char>::empty());
            assert(trimmed(line@).len() == 0);
        }
        return Err(ParseError);
    }
    let mut hi: usize = len;
    loop
        invariant
            len == line@.len(),
            0 <= lo < hi <= len,
            !is_whitespace_char(line@[lo as int]),
            forall|j: int| hi <= j < len ==> is_whitespace_char(#[trigger] line@[j]),
        ensures
            0 <= lo < hi <= len,
            forall|j: int| hi <= j < len ==> is_whitespace_char(#[trigger] line@[j]),
            !is_whitespace_char(line@[hi as int - 1]),
        decreases hi,
    {
        if hi == lo + 1 {
            // only the first non-whitespace character is left
            break;
        }
        if !is_whitespace(line.get_char(hi - 1)) {
            break;
        }
        hi = hi - 1;
    }
    let ghost t = trimmed(line@);
    proof {
        lemma_trim_front_is_suffix(line@, lo as int);
        let front = line@.subrange(lo as int, len as int);
        let h = hi as int - lo as int;
        assert forall|j: int| h <= j < front.len() implies is_whitespace_char(front[j]) by {
            assert(front[j] == line@[j + lo as int]);
            assert(is_whitespace_char(line@[j + lo as int]));
        }
        assert(front[h - 1] == line@[hi as int - 1]);
        lemma_trim_back_is_prefix(front, h);
        assert(t =~= line@.subrange(lo as int, hi as int));
    }
    // the trimmed line is line[lo..hi], and it is non-empty
    let mut i = lo;
    let mut negative = false;
    let first = line.get_char(lo);
    if first == '+' {
        i = i + 1;
    } else if first == '-' {
        negative = true;
        i = i + 1;
    }
    let ghost sd = i as int;
    proof {
        assert(digits_of(t) =~= line@.subrange(sd, hi as int));
        assert(t[0] == line@[lo as int]);
    }
    if i == hi {
        // a sign with no digits
        return Err(ParseError);
    }
    let mut magnitude: i64 = 0;
    let mut too_big = false;
    while i < hi
        invariant
            len == line@.len(),
            0 <= lo <= sd <= i <= hi <= len,
            sd < hi,
            t == trimmed(line@),
            digits_of(t) =~= line@.subrange(sd, hi as int),
            all_digits(line@.subrange(sd, i as int)),
            !too_big ==> 0 <= magnitude <= 2147483648 && magnitude == digits_value(
                line@.subrange(sd, i as int)),
            too_big ==> digits_value(line@.subrange(sd, i as int)) > 2147483648,
        decreases hi - i,
    {
        let c = line.get_char(i);
        let u = c as u32;
        if !(0x30 <= u && u <= 0x39) {
            // a non-digit inside the digit part: not an integer literal
            proof {
                assert(digits_of(t)[i - sd] == c);
                assert(!all_digits(digits_of(t)));
            }
            return Err(ParseError);
        }
        let ghost prefix = line@.subrange(sd, i as int);
        let ghost extended = line@.subrange(sd, i as int + 1);
        proof {
            assert(extended.drop_last() =~= prefix);
            assert(extended.last() == line@[i as int]);
            lemma_digits_value_nonneg(prefix);
        }
        if !too_big {
            magnitude = magnitude * 10 + (u - 0x30) as i64;
            if magnitude > 2147483648 {
                too_big = true;
            }
        }
        i = i + 1;
    }
    proof {
        assert(line@.subrange(sd, i as int) =~= digits_of(t));
        lemma_digits_value_nonneg(digits_of(t));
        assert(negative <==> t[0] == '-');
    }
    if too_big {
        // the numeral is an integer all the same; it saturates to the
        // nearest representable bound, far outside any menu either way
        if negative {
            return Ok(i32::MIN);
        } else {
            return Ok(i32::MAX);
        }
    }
    let value: i64 = if negative {
        -magnitude
    } else {
        magnitude
    };
    if value > 2147483647 {
        // the one unsaturated value past the positive bound: 2^31 itself
        return Ok(i32::MAX);
    }
    Ok(value as i32)
}

} // verus!

//! Reading fixed-point numbers and ranges from text.
//!
//! A number is written in plain decimal notation: an optional sign, digits,
//! and optionally a point followed by more digits, with at least one digit
//! in all. Exponents and the names of infinities are not numbers here. A
//! number is read in millionths; digits beyond the sixth after the point are
//! dropped. A range is two numbers with a colon between them.

use vstd::prelude::*;
use vstd::string::StringSliceAdditionalSpecFns;
use crate::fixed::SCALE;

verus! {

/// The byte of the digit zero.
pub const ZERO: u8 = 48;

/// The byte of the digit nine.
pub const NINE: u8 = 57;

/// The byte of the plus sign.
pub const PLUS: u8 = 43;

/// The byte of the minus sign.
pub const MINUS: u8 = 45;

/// The byte of the decimal point.
pub const POINT: u8 = 46;

/// The byte of the colon.
pub const COLON: u8 = 58;

/// The largest whole part that a number may have and still fit, with its
/// fraction, into 64 signed bits of millionths.
pub const WHOLE_LIMIT: u64 = 9_223_372_036_854;

/// `b` is the byte of a decimal digit.
pub open spec fn is_digit(b: u8) -> bool {
    ZERO <= b <= NINE
}

/// Every byte of `s` from `from` up to `to` is a digit.
pub open spec fn digits_in(s: Seq<u8>, from: int, to: int) -> bool {
    forall|i: int| from <= i < to ==> is_digit(#[trigger] s[i])
}

/// The place of the first byte `b` in `s` from `from` on and before `to`, or
/// `to` where there is none.
pub open spec fn find(s: Seq<u8>, b: u8, from: int, to: int) -> int
    decreases to - from,
{
    if from >= to {
        to
    } else if s[from] == b {
        from
    } else {
        find(s, b, from + 1, to)
    }
}

/// The number that the digits of `s` from `from` up to `to` denote.
pub open spec fn number_in(s: Seq<u8>, from: int, to: int) -> int
    decreases to - from,
{
    if to <= from {
        0
    } else {
        number_in(s, from, to - 1) * 10 + (s[to - 1] - ZERO)
    }
}

/// The digit at place `k` after the point, where the digits after the point
/// run from `from` up to `to`; zero past their end.
pub open spec fn place(s: Seq<u8>, from: int, to: int, k: int) -> int {
    if from + k < to {
        s[from + k] - ZERO
    } else {
        0
    }
}

/// The millionths that the digits of `s` from `from` up to `to` denote when
/// they follow a decimal point: the first six of them count.
pub open spec fn fraction_in(s: Seq<u8>, from: int, to: int) -> int {
    place(s, from, to, 0) * 100_000 + place(s, from, to, 1) * 10_000 + place(s, from, to, 2)
        * 1_000 + place(s, from, to, 3) * 100 + place(s, from, to, 4) * 10 + place(
        s,
        from,
        to,
        5,
    )
}

/// The number, in millionths, that the bytes of `s` from `from` up to `to`
/// denote, or `None` where they are not a number or the number does not fit
/// 64 signed bits.
pub open spec fn decimal_in(s: Seq<u8>, from: int, to: int) -> Option<int> {
    let signed = from < to && (s[from] == PLUS || s[from] == MINUS);
    let negative = from < to && s[from] == MINUS;
    let start = if signed {
        from + 1
    } else {
        from
    };
    let dot = find(s, POINT, start, to);
    let after = if dot < to {
        dot + 1
    } else {
        to
    };
    if digits_in(s, start, dot) && digits_in(s, after, to) && (dot - start) + (to - after) > 0 {
        let value = number_in(s, start, dot) * SCALE + fraction_in(s, after, to);
        if value > i64::MAX {
            None
        } else if negative {
            Some(-value)
        } else {
            Some(value)
        }
    } else {
        None
    }
}

/// The range that the text `s` denotes: the number before the first colon and
/// the number between the first colon and the second, each replaced by its
/// default where it is missing or not a number.
pub open spec fn range_in(s: Seq<u8>, default_min: int, default_max: int) -> (int, int) {
    let len = s.len() as int;
    let first = find(s, COLON, 0, len);
    let low = match decimal_in(s, 0, first) {
        Some(value) => value,
        None => default_min,
    };
    let high = if first < len {
        match decimal_in(s, first + 1, find(s, COLON, first + 1, len)) {
            Some(value) => value,
            None => default_max,
        }
    } else {
        default_max
    };
    (low, high)
}

/// A number read from digits is not negative.
pub proof fn lemma_number_grows_from_zero(s: Seq<u8>, from: int, to: int)
    requires
        from <= to,
        digits_in(s, from, to),
    ensures
        0 <= number_in(s, from, to),
    decreases to - from,
{
    if from < to {
        lemma_number_grows_from_zero(s, from, to - 1);
        assert(is_digit(s[to - 1]));
    }
}

/// The place of the first byte `b` in `s` from `from` on and before `to`, or
/// `to` where there is none.
pub fn find_byte(s: &[u8], b: u8, from: usize, to: usize) -> (at: usize)
    requires
        from <= to <= s@.len(),
    ensures
        at == find(s@, b, from as int, to as int),
        from <= at <= to,
{
    let mut at: usize = from;
    while at < to && s[at] != b
        invariant
            from <= at <= to,
            to <= s@.len(),
            find(s@, b, from as int, to as int) == find(s@, b, at as int, to as int),
        decreases to - at,
    {
        at = at + 1;
    }
    at
}

/// Whether every byte of `s` from `from` up to `to` is a digit.
pub fn all_digits(s: &[u8], from: usize, to: usize) -> (yes: bool)
    requires
        from <= to <= s@.len(),
    ensures
        yes == digits_in(s@, from as int, to as int),
{
    let mut k: usize = from;
    while k < to
        invariant
            from <= k <= to,
            to <= s@.len(),
            digits_in(s@, from as int, k as int),
        decreases to - k,
    {
        let b: u8 = s[k];
        if b < ZERO || b > NINE {
            assert(!is_digit(s@[k as int]));
            return false;
        }
        k = k + 1;
    }
    true
}

/// The number that the digits of `s` from `from` up to `to` denote, or one
/// more than the largest whole part where the number is larger than that.
pub fn read_whole(s: &[u8], from: usize, to: usize) -> (whole: u64)
    requires
        from <= to <= s@.len(),
        digits_in(s@, from as int, to as int),
    ensures
        number_in(s@, from as int, to as int) <= WHOLE_LIMIT ==> whole == number_in(
            s@,
            from as int,
            to as int,
        ),
        number_in(s@, from as int, to as int) > WHOLE_LIMIT ==> whole == WHOLE_LIMIT + 1,
{
    let mut whole: u64 = 0;
    let mut i: usize = from;
    while i < to
        invariant
            from <= i <= to,
            to <= s@.len(),
            digits_in(s@, from as int, to as int),
            whole <= WHOLE_LIMIT + 1,
            number_in(s@, from as int, i as int) <= WHOLE_LIMIT ==> whole == number_in(
                s@,
                from as int,
                i as int,
            ),
            number_in(s@, from as int, i as int) > WHOLE_LIMIT ==> whole == WHOLE_LIMIT + 1,
        decreases to - i,
    {
        let b: u8 = s[i];
        proof {
            assert(is_digit(s@[i as int]));
            assert(digits_in(s@, from as int, i as int));
            lemma_number_grows_from_zero(s@, from as int, i as int);
        }
        let next: u64 = whole * 10 + (b - ZERO) as u64;
        whole = if next > WHOLE_LIMIT {
            WHOLE_LIMIT + 1
        } else {
            next
        };
        i = i + 1;
    }
    whole
}

/// The digit at place `k` after the point, where the digits after the point
/// run from `from` up to `to`; zero past their end.
pub fn digit_at(s: &[u8], from: usize, to: usize, k: usize) -> (digit: u64)
    requires
        from <= to <= s@.len(),
        digits_in(s@, from as int, to as int),
        k < 6,
    ensures
        digit == place(s@, from as int, to as int, k as int),
        digit <= 9,
{
    if k < to - from {
        assert(is_digit(s@[from + k]));
        (s[from + k] - ZERO) as u64
    } else {
        0
    }
}

/// The millionths that the digits of `s` from `from` up to `to` denote when
/// they follow a decimal point.
pub fn read_fraction(s: &[u8], from: usize, to: usize) -> (fraction: u64)
    requires
        from <= to <= s@.len(),
        digits_in(s@, from as int, to as int),
    ensures
        fraction == fraction_in(s@, from as int, to as int),
        fraction <= 999_999,
{
    digit_at(s, from, to, 0) * 100_000 + digit_at(s, from, to, 1) * 10_000 + digit_at(
        s,
        from,
        to,
        2,
    ) * 1_000 + digit_at(s, from, to, 3) * 100 + digit_at(s, from, to, 4) * 10 + digit_at(
        s,
        from,
        to,
        5,
    )
}

/// Reads the number, in millionths, that the bytes of `s` from `from` up to
/// `to` denote.
pub fn parse_decimal(s: &[u8], from: usize, to: usize) -> (res: Option<i64>)
    requires
        from <= to <= s@.len(),
    ensures
        match res {
            Some(value) => decimal_in(s@, from as int, to as int) == Some(value as int),
            None => decimal_in(s@, from as int, to as int) is None,
        },
{
    let signed: bool = from < to && (s[from] == PLUS || s[from] == MINUS);
    let negative: bool = from < to && s[from] == MINUS;
    let start: usize = if signed {
        from + 1
    } else {
        from
    };
    let dot: usize = find_byte(s, POINT, start, to);
    let after: usize = if dot < to {
        dot + 1
    } else {
        to
    };
    if (dot - start) + (to - after) == 0 {
        return None;
    }
    if !all_digits(s, start, dot) || !all_digits(s, after, to) {
        return None;
    }
    let whole: u64 = read_whole(s, start, dot);
    let fraction: u64 = read_fraction(s, after, to);
    proof {
        lemma_number_grows_from_zero(s@, start as int, dot as int);
    }
    if whole > WHOLE_LIMIT {
        return None;
    }
    let value: u64 = whole * 1_000_000 + fraction;
    if value > i64::MAX as u64 {
        None
    } else if negative {
        Some(-(value as i64))
    } else {
        Some(value as i64)
    }
}

/// Reads a range written as two numbers with a colon between them, in
/// millionths. A number that is missing or cannot be read is replaced by its
/// default.
pub fn parse_range(s: &str, default_min: i64, default_max: i64) -> (range: (i64, i64))
    ensures
        (range.0 as int, range.1 as int) == range_in(
            s.spec_bytes(),
            default_min as int,
            default_max as int,
        ),
{
    let bytes = s.as_bytes();
    let len: usize = bytes.len();
    let first: usize = find_byte(bytes, COLON, 0, len);
    let low: i64 = match parse_decimal(bytes, 0, first) {
        Some(value) => value,
        None => default_min,
    };
    let high: i64 = if first < len {
        let second: usize = find_byte(bytes, COLON, first + 1, len);
        match parse_decimal(bytes, first + 1, second) {
            Some(value) => value,
            None => default_max,
        }
    } else {
        default_max
    };
    (low, high)
}

} // verus!

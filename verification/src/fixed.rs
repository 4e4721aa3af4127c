//! Fixed-point arithmetic shared by every stage of the synthesizer.
//!
//! A real quantity (seconds, hertz, a gain, an amplitude) is carried as a whole
//! number of millionths: `1.0` is [`SCALE`], `0.5` is [`HALF`]. Products and
//! quotients are rounded toward zero, so that every operation is symmetric
//! about zero, as an audio signal is.

use vstd::prelude::*;

verus! {

/// The fixed-point representation of `1.0`.
pub const SCALE: i64 = 1_000_000;

/// The fixed-point representation of `0.5`.
pub const HALF: i64 = 500_000;

/// Largest magnitude a stored amplitude may have: four of them still fit `i64`.
pub const AMP_LIMIT: i64 = 0x1000_0000_0000_0000;

/// The absolute value of `x`.
pub open spec fn magnitude(x: int) -> int {
    if x >= 0 {
        x
    } else {
        -x
    }
}

/// The quotient of `n` by a positive `d`, rounded toward zero.
pub open spec fn quot(n: int, d: int) -> int {
    if n >= 0 {
        n / d
    } else {
        -((-n) / d)
    }
}

/// The fixed-point product `a * b`.
pub open spec fn scaled(a: int, b: int) -> int {
    quot(a * b, SCALE as int)
}

/// The fixed-point quotient `a / b` of a dividend by a positive divisor.
pub open spec fn ratio(a: int, b: int) -> int {
    quot(a * SCALE, b)
}

/// The weighted mean `a * (1 - w) + b * w` with the weight `w` in fixed point,
/// rounded once.
pub open spec fn blend(a: int, b: int, w: int) -> int {
    quot(a * (SCALE - w) + b * w, SCALE as int)
}

/// The product of a fixed-point `a` and a whole number `n`, rounded to the
/// nearest whole number (halves round up). Both are non-negative.
pub open spec fn rounded(a: int, n: int) -> int {
    (a * n + HALF) / (SCALE as int)
}

/// `x` limited to the interval from `lo` to `hi`.
pub open spec fn clamped(x: int, lo: int, hi: int) -> int {
    if x < lo {
        lo
    } else if x > hi {
        hi
    } else {
        x
    }
}

/// The smaller of two integers.
pub open spec fn lesser(a: int, b: int) -> int {
    if a <= b {
        a
    } else {
        b
    }
}

/// The larger of two integers.
pub open spec fn greater(a: int, b: int) -> int {
    if a >= b {
        a
    } else {
        b
    }
}

/// `quot(n, d)` is the one integer `q` of the sign of `n` with
/// `|q| * d <= |n| < (|q| + 1) * d`.
pub proof fn lemma_quot_bounds(n: int, d: int)
    requires
        d > 0,
    ensures
        magnitude(quot(n, d)) * d <= magnitude(n),
        magnitude(n) < (magnitude(quot(n, d)) + 1) * d,
        n >= 0 ==> quot(n, d) >= 0,
        n <= 0 ==> quot(n, d) <= 0,
        quot(-n, d) == -quot(n, d),
{
    let m = magnitude(n);
    vstd::arithmetic::div_mod::lemma_fundamental_div_mod(m, d);
    vstd::arithmetic::div_mod::lemma_mod_bound(m, d);
    vstd::arithmetic::div_mod::lemma_div_pos_is_pos(m, d);
    assert(d * (m / d) == (m / d) * d) by (nonlinear_arith);
    assert((m / d + 1) * d == (m / d) * d + d) by (nonlinear_arith);
}

/// Rounding toward zero keeps order.
pub proof fn lemma_quot_monotonic(a: int, b: int, d: int)
    requires
        d > 0,
        a <= b,
    ensures
        quot(a, d) <= quot(b, d),
{
    lemma_quot_bounds(a, d);
    lemma_quot_bounds(b, d);
    if a >= 0 {
        vstd::arithmetic::div_mod::lemma_div_is_ordered(a, b, d);
    } else if b < 0 {
        vstd::arithmetic::div_mod::lemma_div_is_ordered(-b, -a, d);
    }
}

/// A whole multiple divides without remainder.
pub proof fn lemma_quot_multiple(q: int, d: int)
    requires
        d > 0,
    ensures
        quot(q * d, d) == q,
{
    if q >= 0 {
        assert(q * d >= 0) by (nonlinear_arith)
            requires
                q >= 0,
                d > 0,
        ;
        vstd::arithmetic::div_mod::lemma_div_by_multiple(q, d);
    } else {
        assert(q * d < 0 && -(q * d) == (-q) * d) by (nonlinear_arith)
            requires
                q < 0,
                d > 0,
        ;
        vstd::arithmetic::div_mod::lemma_div_by_multiple(-q, d);
    }
}

/// A quotient is no larger in magnitude than any bound `m` for which
/// `|n| <= m * d`.
pub proof fn lemma_quot_within(n: int, d: int, m: int)
    requires
        d > 0,
        m >= 0,
        magnitude(n) <= m * d,
    ensures
        magnitude(quot(n, d)) <= m,
{
    lemma_quot_bounds(n, d);
    let q = magnitude(quot(n, d));
    assert(q <= m) by (nonlinear_arith)
        requires
            q * d <= m * d,
            d > 0,
    ;
}

/// Scaling by a factor of magnitude at most one does not grow a value.
pub proof fn lemma_scaled_bound(a: int, b: int)
    requires
        magnitude(b) <= SCALE,
    ensures
        magnitude(scaled(a, b)) <= magnitude(a),
        a >= 0 && b >= 0 ==> scaled(a, b) >= 0,
        a == 0 || b == 0 ==> scaled(a, b) == 0,
{
    let s = SCALE as int;
    assert(magnitude(a * b) <= magnitude(a) * s) by (nonlinear_arith)
        requires
            magnitude(b) <= s,
    ;
    lemma_quot_within(a * b, s, magnitude(a));
    lemma_quot_bounds(a * b, s);
    assert(a >= 0 && b >= 0 ==> a * b >= 0) by (nonlinear_arith);
    assert(a == 0 || b == 0 ==> a * b == 0) by (nonlinear_arith);
}

/// The fixed-point product does not depend on the order of its factors.
pub proof fn lemma_scaled_commutes(a: int, b: int)
    ensures
        scaled(a, b) == scaled(b, a),
{
    assert(a * b == b * a) by (nonlinear_arith);
}

/// A product of two bounded factors is bounded by the product of the bounds.
pub proof fn lemma_scaled_within(a: int, b: int, ma: int, mb: int)
    requires
        magnitude(a) <= ma,
        magnitude(b) <= mb * SCALE,
        mb >= 0,
    ensures
        magnitude(scaled(a, b)) <= ma * mb,
{
    let s = SCALE as int;
    assert(magnitude(a * b) <= (ma * mb) * s && ma * mb >= 0) by (nonlinear_arith)
        requires
            magnitude(a) <= ma,
            magnitude(b) <= mb * s,
            mb >= 0,
    ;
    lemma_quot_within(a * b, s, ma * mb);
}

/// A weighted mean lies between the two values it weighs, and at the weights
/// zero and one it is the first and the second of them.
pub proof fn lemma_blend_between(a: int, b: int, w: int)
    requires
        0 <= w <= SCALE,
    ensures
        lesser(a, b) <= blend(a, b, w) <= greater(a, b),
        w == 0 ==> blend(a, b, w) == a,
        w == SCALE ==> blend(a, b, w) == b,
{
    let s = SCALE as int;
    let lo = lesser(a, b);
    let hi = greater(a, b);
    let n = a * (s - w) + b * w;
    assert(lo * s <= n <= hi * s) by (nonlinear_arith)
        requires
            0 <= w <= s,
            lo <= a <= hi,
            lo <= b <= hi,
            n == a * (s - w) + b * w,
    ;
    lemma_quot_monotonic(lo * s, n, s);
    lemma_quot_monotonic(n, hi * s, s);
    lemma_quot_multiple(lo, s);
    lemma_quot_multiple(hi, s);
    if w == 0 {
        assert(n == a * s) by (nonlinear_arith)
            requires
                w == 0,
                n == a * (s - w) + b * w,
        ;
        lemma_quot_multiple(a, s);
    }
    if w == s {
        assert(n == b * s) by (nonlinear_arith)
            requires
                w == s,
                n == a * (s - w) + b * w,
        ;
        lemma_quot_multiple(b, s);
    }
}

/// The quotient of `n` by a positive `d`, rounded toward zero.
pub fn div_toward_zero(n: i128, d: i128) -> (q: i128)
    requires
        d > 0,
    ensures
        q == quot(n as int, d as int),
{
    proof {
        lemma_quot_bounds(n as int, d as int);
    }
    n / d
}

/// Rust's quotient and remainder, both rounded toward zero, add up to the
/// dividend; from them follow the quotient rounded down and its remainder.
pub proof fn lemma_floor_from_truncated(n: int, d: int, q: int, r: int)
    requires
        d > 0,
        n >= 0 ==> q == n / d && r == n % d,
        n < 0 ==> q == -((-n) / d) && r == -((-n) % d),
    ensures
        r < 0 ==> n / d == q - 1 && n % d == r + d,
        r >= 0 ==> n / d == q && n % d == r,
{
    let m = magnitude(n);
    vstd::arithmetic::div_mod::lemma_fundamental_div_mod(m, d);
    vstd::arithmetic::div_mod::lemma_mod_bound(m, d);
    if n < 0 {
        assert(n == q * d + r && n == (q - 1) * d + (r + d)) by (nonlinear_arith)
            requires
                m == d * (m / d) + m % d,
                n == -m,
                q == -(m / d),
                r == -(m % d),
        ;
        if r < 0 {
            vstd::arithmetic::div_mod::lemma_fundamental_div_mod_converse(n, d, q - 1, r + d);
        } else {
            vstd::arithmetic::div_mod::lemma_fundamental_div_mod_converse(n, d, q, r);
        }
    }
}

/// The quotient of `n` by a positive `d`, rounded down.
pub fn div_floor(n: i128, d: i128) -> (q: i128)
    requires
        d > 0,
    ensures
        q == (n as int) / (d as int),
{
    let q: i128 = n / d;
    let r: i128 = n % d;
    proof {
        lemma_floor_from_truncated(n as int, d as int, q as int, r as int);
        vstd::arithmetic::div_mod::lemma_fundamental_div_mod(n as int, d as int);
        vstd::arithmetic::div_mod::lemma_mod_bound(n as int, d as int);
        assert(i128::MIN <= (n as int) / (d as int)) by (nonlinear_arith)
            requires
                n == d * ((n as int) / (d as int)) + (n as int) % (d as int),
                0 <= (n as int) % (d as int) < d,
                d >= 1,
                n >= i128::MIN,
        ;
    }
    if r < 0 {
        q - 1
    } else {
        q
    }
}

/// The remainder of `n` by a positive `d`, never negative.
pub fn rem_floor(n: i128, d: i128) -> (r: i128)
    requires
        d > 0,
    ensures
        r == (n as int) % (d as int),
        0 <= r < d,
{
    let q: i128 = n / d;
    let r: i128 = n % d;
    proof {
        lemma_floor_from_truncated(n as int, d as int, q as int, r as int);
        vstd::arithmetic::div_mod::lemma_mod_bound(n as int, d as int);
    }
    if r < 0 {
        r + d
    } else {
        r
    }
}

/// The fixed-point product of `a` and `b`, where it fits.
pub fn mul_fixed(a: i64, b: i64) -> (r: i64)
    requires
        i64::MIN <= scaled(a as int, b as int) <= i64::MAX,
    ensures
        r == scaled(a as int, b as int),
{
    assert(-0x4000_0000_0000_0000_0000_0000_0000_0000 <= a * b
        <= 0x4000_0000_0000_0000_0000_0000_0000_0000) by (nonlinear_arith)
        requires
            -0x8000_0000_0000_0000 <= a <= 0x8000_0000_0000_0000,
            -0x8000_0000_0000_0000 <= b <= 0x8000_0000_0000_0000,
    ;
    let wide: i128 = (a as i128) * (b as i128);
    let q: i128 = div_toward_zero(wide, SCALE as i128);
    q as i64
}

/// The weighted mean of `a` and `b` with the weight `w` of `b` between zero
/// and one.
pub fn blend_fixed(a: i64, b: i64, w: i64) -> (r: i64)
    requires
        0 <= w <= SCALE,
    ensures
        r == blend(a as int, b as int, w as int),
{
    let rest: i64 = SCALE - w;
    assert(-0x8000_0000_0000_0000 * 1_000_000 <= a * rest + b * w
        <= 0x8000_0000_0000_0000 * 1_000_000) by (nonlinear_arith)
        requires
            -0x8000_0000_0000_0000 <= a < 0x8000_0000_0000_0000,
            -0x8000_0000_0000_0000 <= b < 0x8000_0000_0000_0000,
            0 <= w <= 1_000_000,
            rest == 1_000_000 - w,
    ;
    assert(-0x8000_0000_0000_0000 * 1_000_000 <= a * rest <= 0x8000_0000_0000_0000 * 1_000_000)
        by (nonlinear_arith)
        requires
            -0x8000_0000_0000_0000 <= a < 0x8000_0000_0000_0000,
            0 <= rest <= 1_000_000,
    ;
    assert(-0x8000_0000_0000_0000 * 1_000_000 <= b * w <= 0x8000_0000_0000_0000 * 1_000_000)
        by (nonlinear_arith)
        requires
            -0x8000_0000_0000_0000 <= b < 0x8000_0000_0000_0000,
            0 <= w <= 1_000_000,
    ;
    let wide: i128 = (a as i128) * (rest as i128) + (b as i128) * (w as i128);
    let q: i128 = div_toward_zero(wide, SCALE as i128);
    proof {
        lemma_blend_between(a as int, b as int, w as int);
    }
    q as i64
}

} // verus!

//! The sine oscillator.
//!
//! An angle is a phase in millionths of a full turn. The sine of a phase is
//! computed with Bhaskara's rational approximation of the half wave,
//! `16 x (1 - x) / (5 - 4 x (1 - x))` for `x` running from zero to one over
//! half a turn. It is exact at 0, 90 and 180 degrees, never leaves the
//! interval from minus one to one, and stays within 0.0017 of the true sine.

use vstd::prelude::*;
use crate::fixed::{HALF, SCALE, div_floor, magnitude, rem_floor};

verus! {

/// The half wave at the offset `p` into it, `0 <= p <= HALF`.
pub open spec fn half_wave(p: int) -> int {
    let u = p * (HALF - p);
    (16 * u * SCALE) / (5 * HALF * HALF - 4 * u)
}

/// The sine of the phase `turns`: the half wave over the first half of each
/// turn, its mirror image over the second.
pub open spec fn sine(turns: int) -> int {
    let p = turns % (SCALE as int);
    if p <= HALF {
        half_wave(p)
    } else {
        -half_wave(p - HALF)
    }
}

/// The phase that an oscillator of `freq` millionths of a hertz has reached
/// after `time` microseconds.
pub open spec fn phase(freq: int, time: int) -> int {
    (freq * time) / (SCALE as int)
}

/// The half wave lies between zero and one.
pub proof fn lemma_half_wave_range(p: int)
    requires
        0 <= p <= HALF,
    ensures
        0 <= half_wave(p) <= SCALE,
        4 * (p * (HALF - p)) <= HALF * HALF,
{
    let h = HALF as int;
    let s = SCALE as int;
    let u = p * (h - p);
    assert(0 <= u && 4 * u <= h * h) by (nonlinear_arith)
        requires
            0 <= p <= h,
            u == p * (h - p),
    ;
    let d = 5 * h * h - 4 * u;
    let n = 16 * u * s;
    assert(d >= 4 * h * h);
    assert(0 <= n <= s * d) by (nonlinear_arith)
        requires
            0 <= u,
            4 * u <= h * h,
            d == 5 * h * h - 4 * u,
            n == 16 * u * s,
            s > 0,
    ;
    vstd::arithmetic::div_mod::lemma_div_pos_is_pos(n, d);
    vstd::arithmetic::div_mod::lemma_div_is_ordered(n, s * d, d);
    vstd::arithmetic::div_mod::lemma_div_by_multiple(s, d);
}

/// The half wave starts and ends at zero and peaks at one in its middle.
pub proof fn lemma_half_wave_landmarks()
    ensures
        half_wave(0) == 0,
        half_wave(HALF as int) == 0,
        half_wave(HALF / 2) == SCALE,
{
    assert(half_wave(0) == 0) by {
        assert(0int * (500_000int - 0) == 0);
    }
    assert(half_wave(500_000) == 0) by {
        assert(500_000int * (500_000int - 500_000) == 0);
    }
    assert(half_wave(250_000) == 1_000_000) by {
        assert(250_000int * (500_000int - 250_000) == 62_500_000_000);
        assert(16 * 62_500_000_000int * 1_000_000 == 1_000_000_000_000_000_000);
        assert(5 * 500_000int * 500_000 - 4 * 62_500_000_000 == 1_000_000_000_000);
    }
}

/// The half wave is its own mirror image about its middle.
pub proof fn lemma_half_wave_mirror(p: int)
    ensures
        half_wave(HALF - p) == half_wave(p),
{
    let h = HALF as int;
    assert((h - p) * (h - (h - p)) == p * (h - p)) by (nonlinear_arith);
}

/// The sine never leaves the interval from minus one to one.
pub proof fn lemma_sine_range(turns: int)
    ensures
        -SCALE <= sine(turns) <= SCALE,
        magnitude(sine(turns)) <= SCALE,
{
    let p = turns % (SCALE as int);
    if p <= HALF {
        lemma_half_wave_range(p);
    } else {
        lemma_half_wave_range(p - HALF);
    }
}

/// The sine repeats after every full turn.
pub proof fn lemma_sine_periodic(turns: int, k: int)
    ensures
        sine(turns + k * SCALE) == sine(turns),
{
    let s = SCALE as int;
    vstd::arithmetic::div_mod::lemma_mod_multiples_vanish(k, turns, s);
    assert(s * k + turns == turns + k * s) by (nonlinear_arith);
}

/// The sine of minus a phase is minus the sine of the phase.
pub proof fn lemma_sine_odd(turns: int)
    ensures
        sine(-turns) == -sine(turns),
{
    let s = SCALE as int;
    let h = HALF as int;
    let p = turns % s;
    let q = (-turns) % s;
    vstd::arithmetic::div_mod::lemma_fundamental_div_mod(turns, s);
    vstd::arithmetic::div_mod::lemma_fundamental_div_mod(-turns, s);
    if p == 0 {
        assert(q == 0) by {
            vstd::arithmetic::div_mod::lemma_fundamental_div_mod_converse(
                -turns,
                s,
                -(turns / s),
                0,
            );
            assert(s * (-(turns / s)) == -(s * (turns / s))) by (nonlinear_arith);
        }
        lemma_half_wave_landmarks();
    } else {
        assert(q == s - p) by {
            vstd::arithmetic::div_mod::lemma_fundamental_div_mod_converse(
                -turns,
                s,
                -(turns / s) - 1,
                s - p,
            );
            assert(s * (-(turns / s) - 1) == -(s * (turns / s)) - s) by (nonlinear_arith);
        }
        if p < h {
            lemma_half_wave_mirror(p);
            assert(q - h == h - p);
        } else if p == h {
            lemma_half_wave_landmarks();
        } else {
            lemma_half_wave_mirror(p - h);
            assert(q == h - (p - h));
        }
    }
}

/// The sine of a phase given in millionths of a turn.
pub fn sine_of(turns: u64) -> (r: i64)
    ensures
        r == sine(turns as int),
        -SCALE <= r <= SCALE,
{
    let p: i64 = (turns % 1_000_000) as i64;
    let ghost p0: int = if p <= HALF { p as int } else { p - HALF };
    let offset: i64 = if p <= HALF { p } else { p - HALF };
    proof {
        lemma_half_wave_range(p0);
        lemma_sine_range(turns as int);
        assert(0 <= offset * (HALF - offset) <= 62_500_000_000) by (nonlinear_arith)
            requires
                0 <= offset <= 500_000,
                4 * (offset * (HALF - offset)) <= HALF * HALF,
        ;
    }
    let u: i64 = offset * (HALF - offset);
    let wave: i64 = (16 * u * SCALE) / (5 * HALF * HALF - 4 * u);
    if p <= HALF {
        wave
    } else {
        -wave
    }
}

/// The phase, reduced to one turn, of an oscillator of `freq` millionths of a
/// hertz after `time` microseconds.
pub fn phase_of(freq: i64, time: u64) -> (r: u64)
    ensures
        r == phase(freq as int, time as int) % (SCALE as int),
        r < SCALE,
{
    assert(-0x8000_0000_0000_0000 * 0x1_0000_0000_0000_0000 <= freq * time
        <= 0x8000_0000_0000_0000 * 0xffff_ffff_ffff_ffff) by (nonlinear_arith)
        requires
            -0x8000_0000_0000_0000 <= freq < 0x8000_0000_0000_0000,
            0 <= time <= 0xffff_ffff_ffff_ffff,
    ;
    let wide: i128 = (freq as i128) * (time as i128);
    let turns: i128 = div_floor(wide, 1_000_000);
    let reduced: i128 = rem_floor(turns, 1_000_000);
    reduced as u64
}

/// The value at `time` microseconds of a sine oscillator of `freq` millionths
/// of a hertz that started at phase zero.
pub fn oscillate(freq: i64, time: u64) -> (r: i64)
    ensures
        r == sine(phase(freq as int, time as int)),
        -SCALE <= r <= SCALE,
{
    let reduced: u64 = phase_of(freq, time);
    proof {
        vstd::arithmetic::div_mod::lemma_mod_twice(
            phase(freq as int, time as int),
            SCALE as int,
        );
    }
    sine_of(reduced)
}

} // verus!

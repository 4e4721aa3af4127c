//! The three noise layers: a steady hiss, a hiss gated into bursts ten times
//! a second, and a hiss smoothed by a one-pole low-pass filter that carries
//! its last output from frame to frame.
//!
//! Each layer turns one draw from minus one to one into its share of a frame.
//! The steady and the gated layer add the same value to both channels.

use vstd::prelude::*;
use crate::fixed::{
    HALF, SCALE, blend, blend_fixed, lemma_blend_between, lemma_scaled_bound, lesser, greater,
    magnitude, mul_fixed, scaled,
};
use crate::sine::{lemma_sine_periodic, lemma_sine_range, oscillate, phase, sine};

verus! {

/// The rate of the burst gate: ten hertz.
pub const BURST_RATE: i64 = 10_000_000;

/// The length of one period of the burst gate in microseconds: a tenth of a
/// second.
pub const BURST_PERIOD: u64 = 100_000;

/// The share of the noise level that the gated layer gets: 0.5.
pub const GRAIN_SHARE: i64 = 500_000;

/// The share of the noise level that the filtered layer gets: 0.3.
pub const FILTER_SHARE: i64 = 300_000;

/// The weight of the new input in the low-pass filter: 0.1.
pub const FILTER_COEFF: i64 = 100_000;

/// The burst gate at `time`: a ten-hertz sine lifted to run from zero to one.
pub open spec fn burst(time: int) -> int {
    scaled(sine(phase(BURST_RATE as int, time)), HALF as int) + HALF
}

/// The steady layer: the draw times the noise level.
pub open spec fn base_noise(draw: int, level: int) -> int {
    scaled(draw, level)
}

/// The gated layer: the draw times the noise level times its share times the
/// burst gate.
pub open spec fn grain_noise(draw: int, level: int, time: int) -> int {
    scaled(scaled(scaled(draw, level), GRAIN_SHARE as int), burst(time))
}

/// What the filtered layer feeds into its filter: the draw times the noise
/// level times its share.
pub open spec fn filter_input(draw: int, level: int) -> int {
    scaled(scaled(draw, level), FILTER_SHARE as int)
}

/// One step of the low-pass filter: the new state is the old one moved a
/// tenth of the way toward the input.
pub open spec fn filter_step(state: int, input: int) -> int {
    blend(state, input, FILTER_COEFF as int)
}

/// The burst gate repeats every tenth of a second.
pub proof fn lemma_burst_periodic(time: int)
    ensures
        burst(time + BURST_PERIOD) == burst(time),
{
    let later = time + BURST_PERIOD;
    assert(BURST_RATE * time == (10 * time) * SCALE);
    assert(BURST_RATE * later == (10 * later) * SCALE);
    vstd::arithmetic::div_mod::lemma_fundamental_div_mod_converse(
        BURST_RATE * time,
        SCALE as int,
        10 * time,
        0,
    );
    vstd::arithmetic::div_mod::lemma_fundamental_div_mod_converse(
        BURST_RATE * later,
        SCALE as int,
        10 * later,
        0,
    );
    assert(phase(BURST_RATE as int, time) == 10 * time);
    assert(phase(BURST_RATE as int, later) == 10 * time + 1 * SCALE);
    lemma_sine_periodic(10 * time, 1);
}

/// The burst gate stays between zero and one.
pub proof fn lemma_burst_range(time: int)
    ensures
        0 <= burst(time) <= SCALE,
{
    lemma_sine_range(phase(BURST_RATE as int, time));
    lemma_scaled_bound(sine(phase(BURST_RATE as int, time)), HALF as int);
}

/// The new state of the filter lies between its old state and the input: the
/// step is a weighted mean of the two.
pub proof fn lemma_filter_between(state: int, input: int)
    ensures
        lesser(state, input) <= filter_step(state, input) <= greater(state, input),
{
    lemma_blend_between(state, input, FILTER_COEFF as int);
}

/// Each layer stays within the noise level, and so within full scale, for a
/// draw and a level of magnitude at most one.
pub proof fn lemma_noise_bounds(draw: int, level: int, time: int)
    requires
        magnitude(draw) <= SCALE,
        0 <= level <= SCALE,
    ensures
        magnitude(base_noise(draw, level)) <= level,
        magnitude(grain_noise(draw, level, time)) <= level,
        magnitude(filter_input(draw, level)) <= level,
{
    lemma_scaled_bound(level, draw);
    crate::fixed::lemma_scaled_commutes(level, draw);
    lemma_scaled_bound(scaled(draw, level), GRAIN_SHARE as int);
    lemma_burst_range(time);
    lemma_scaled_bound(scaled(scaled(draw, level), GRAIN_SHARE as int), burst(time));
    lemma_scaled_bound(scaled(draw, level), FILTER_SHARE as int);
}

/// The burst gate at `t` microseconds.
pub fn burst_env(t: u64) -> (gate: i64)
    ensures
        gate == burst(t as int),
        0 <= gate <= SCALE,
{
    let wave: i64 = oscillate(BURST_RATE, t);
    proof {
        lemma_scaled_bound(wave as int, HALF as int);
    }
    mul_fixed(wave, HALF) + HALF
}

/// The steady layer's share of a frame for one draw.
pub fn base_noise_of(draw: i64, level: i64) -> (r: i64)
    requires
        -SCALE <= draw <= SCALE,
        0 <= level <= SCALE,
    ensures
        r == base_noise(draw as int, level as int),
        magnitude(r as int) <= level,
{
    proof {
        lemma_noise_bounds(draw as int, level as int, 0);
    }
    mul_fixed(draw, level)
}

/// The gated layer's share of a frame at `time` microseconds for one draw.
pub fn grain_noise_of(draw: i64, level: i64, time: u64) -> (r: i64)
    requires
        -SCALE <= draw <= SCALE,
        0 <= level <= SCALE,
    ensures
        r == grain_noise(draw as int, level as int, time as int),
        magnitude(r as int) <= level,
{
    proof {
        lemma_noise_bounds(draw as int, level as int, time as int);
        lemma_scaled_bound(scaled(draw as int, level as int), GRAIN_SHARE as int);
    }
    let gate: i64 = burst_env(time);
    mul_fixed(mul_fixed(mul_fixed(draw, level), GRAIN_SHARE), gate)
}

/// The next state of the low-pass filter for one draw; it is also the
/// filtered layer's share of the frame.
pub fn filter_noise_of(state: i64, draw: i64, level: i64) -> (r: i64)
    requires
        -SCALE <= draw <= SCALE,
        0 <= level <= SCALE,
    ensures
        r == filter_step(state as int, filter_input(draw as int, level as int)),
        magnitude(state as int) <= level ==> magnitude(r as int) <= level,
{
    proof {
        lemma_noise_bounds(draw as int, level as int, 0);
        lemma_filter_between(state as int, filter_input(draw as int, level as int));
    }
    let input: i64 = mul_fixed(mul_fixed(draw, level), FILTER_SHARE);
    blend_fixed(state, input, FILTER_COEFF)
}

} // verus!

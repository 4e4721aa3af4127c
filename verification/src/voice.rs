//! One voice of the oscillator bank: a sine tone whose loudness follows a slow
//! oscillation of its own and which wanders between the two channels.

use vstd::prelude::*;
use crate::fixed::{
    HALF, SCALE, lemma_quot_bounds, lemma_scaled_bound, lemma_scaled_commutes, magnitude,
    mul_fixed, scaled,
};
use crate::sine::{lemma_half_wave_landmarks, lemma_sine_range, oscillate, phase, sine};

verus! {

/// The fixed parameters of a voice. Frequencies are in millionths of a hertz,
/// the depth in millionths of one.
#[derive(Debug, Clone, Copy, PartialEq, Eq)]
pub struct Voice {
    /// The pitch of the tone.
    pub freq: i64,
    /// How fast the loudness of the tone swells and fades.
    pub lfo_rate: i64,
    /// How much of the tone is let through at the peak of the swell.
    pub mod_depth: i64,
    /// How fast the tone wanders between the channels.
    pub pan_rate: i64,
}

impl Voice {
    /// The swell at `time`: a sine of the swell rate, lifted to run from zero
    /// to one.
    pub open spec fn modulation(self, time: int) -> int {
        scaled(sine(phase(self.lfo_rate as int, time)), HALF as int) + HALF
    }

    /// The tone at `time`, before it is spread over the channels: the sine of
    /// the pitch times the swell times the depth.
    pub open spec fn tone(self, time: int) -> int {
        scaled(
            sine(phase(self.freq as int, time)),
            scaled(self.modulation(time), self.mod_depth as int),
        )
    }

    /// The position between the channels at `time`, from minus one (left) to
    /// one (right).
    pub open spec fn pan(self, time: int) -> int {
        sine(phase(self.pan_rate as int, time))
    }

    /// What the voice adds to the left and to the right channel at `time`: the
    /// tone times half of one minus the position, and times half of one plus
    /// the position.
    pub open spec fn output(self, time: int) -> (int, int) {
        (
            scaled(self.tone(time), scaled(SCALE - self.pan(time), HALF as int)),
            scaled(self.tone(time), scaled(SCALE + self.pan(time), HALF as int)),
        )
    }

    /// The depth is a share between zero and one.
    pub open spec fn depth_in_range(self) -> bool {
        0 <= self.mod_depth <= SCALE
    }

    /// What the voice adds to the two channels at `time` microseconds.
    pub fn synthesize(&self, t: u64) -> (out: (i64, i64))
        requires
            self.depth_in_range(),
        ensures
            (out.0 as int, out.1 as int) == self.output(t as int),
            magnitude(out.0 as int) <= SCALE,
            magnitude(out.1 as int) <= SCALE,
    {
        let swell: i64 = oscillate(self.lfo_rate, t);
        proof {
            lemma_scaled_bound(swell as int, HALF as int);
        }
        let mod_env: i64 = mul_fixed(swell, HALF) + HALF;
        proof {
            lemma_scaled_bound(self.mod_depth as int, mod_env as int);
            lemma_scaled_commutes(self.mod_depth as int, mod_env as int);
        }
        let amount: i64 = mul_fixed(mod_env, self.mod_depth);
        let carrier: i64 = oscillate(self.freq, t);
        proof {
            lemma_scaled_bound(amount as int, carrier as int);
            lemma_scaled_commutes(amount as int, carrier as int);
        }
        let sample: i64 = mul_fixed(carrier, amount);
        let pan: i64 = oscillate(self.pan_rate, t);
        proof {
            lemma_scaled_bound(SCALE - pan, HALF as int);
            lemma_scaled_bound(SCALE + pan, HALF as int);
        }
        let l_gain: i64 = mul_fixed(SCALE - pan, HALF);
        let r_gain: i64 = mul_fixed(SCALE + pan, HALF);
        proof {
            lemma_scaled_bound(sample as int, l_gain as int);
            lemma_scaled_bound(sample as int, r_gain as int);
        }
        (mul_fixed(sample, l_gain), mul_fixed(sample, r_gain))
    }
}

/// At time zero every voice is silent in both channels, whatever its
/// parameters: all its oscillators start at phase zero, where the sine is zero.
pub proof fn lemma_voice_silent_at_start(voice: Voice)
    ensures
        voice.output(0) == (0int, 0int),
        voice.tone(0) == 0,
{
    assert(voice.freq * 0 == 0);
    assert(phase(voice.freq as int, 0) == 0);
    lemma_half_wave_landmarks();
    assert(sine(0) == 0);
    let amount = scaled(voice.modulation(0), voice.mod_depth as int);
    assert(0 * amount == 0) by (nonlinear_arith);
    lemma_quot_bounds(0, SCALE as int);
    assert(voice.tone(0) == 0);
    let l_gain = scaled(SCALE - voice.pan(0), HALF as int);
    let r_gain = scaled(SCALE + voice.pan(0), HALF as int);
    assert(0 * l_gain == 0) by (nonlinear_arith);
    assert(0 * r_gain == 0) by (nonlinear_arith);
}

/// A voice whose depth is a share between zero and one stays within full
/// scale in both channels at all times.
pub proof fn lemma_voice_within_full_scale(voice: Voice, time: int)
    requires
        voice.depth_in_range(),
    ensures
        magnitude(voice.output(time).0) <= SCALE,
        magnitude(voice.output(time).1) <= SCALE,
{
    let swell = sine(phase(voice.lfo_rate as int, time));
    lemma_sine_range(phase(voice.lfo_rate as int, time));
    lemma_scaled_bound(swell, HALF as int);
    let mod_env = voice.modulation(time);
    lemma_scaled_bound(voice.mod_depth as int, mod_env);
    lemma_scaled_commutes(voice.mod_depth as int, mod_env);
    let amount = scaled(mod_env, voice.mod_depth as int);
    let carrier = sine(phase(voice.freq as int, time));
    lemma_sine_range(phase(voice.freq as int, time));
    lemma_scaled_bound(amount, carrier);
    lemma_scaled_commutes(amount, carrier);
    let pan = voice.pan(time);
    lemma_sine_range(phase(voice.pan_rate as int, time));
    lemma_scaled_bound(SCALE - pan, HALF as int);
    lemma_scaled_bound(SCALE + pan, HALF as int);
    lemma_scaled_bound(voice.tone(time), scaled(SCALE - pan, HALF as int));
    lemma_scaled_bound(voice.tone(time), scaled(SCALE + pan, HALF as int));
}

} // verus!

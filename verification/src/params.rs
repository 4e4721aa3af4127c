//! The parameter record that a run is made from, and the check that decides
//! whether a run may start.

use vstd::prelude::*;
use crate::error::Error;
use crate::fixed::{HALF, SCALE, clamped, div_floor, rounded};

verus! {

/// The largest number of voices: with it, the sum of all voices and noise
/// layers of a frame stays far inside the range of an amplitude.
pub const MAX_VOICES: usize = 1_000_000;

/// The largest base frequency, in millionths of a hertz: one that can still be
/// detuned upward without leaving the range of `i64`.
pub const MAX_BASE_FREQ: i64 = 1_000_000_000_000_000_000;

/// The fully resolved parameters of one run. Times are in microseconds,
/// frequencies in millionths of a hertz, levels and shares in millionths of
/// one.
#[derive(Debug)]
pub struct GeneratorParams {
    /// The name under which the result is to be stored.
    pub filename: String,
    /// Frames per second.
    pub sample_rate: u32,
    /// The length of the piece.
    pub duration: i64,
    /// The least and the largest swell rate a voice may draw.
    pub lfo_range: (i64, i64),
    /// The least and the largest depth a voice may draw.
    pub mod_depth_range: (i64, i64),
    /// The number of voices.
    pub voices: usize,
    /// The frequency around which the voices are detuned.
    pub base_freq: i64,
    /// The level of the noise layers.
    pub noise_level: i64,
    /// The length of the fade in.
    pub attack: i64,
    /// The length of the fade out.
    pub release: i64,
    /// The weight of the delay line in the reverb.
    pub reverb_mix: i64,
}

/// The number of frames in a piece of `duration` microseconds at
/// `sample_rate` frames per second: their product in seconds, rounded to the
/// nearest whole number, and kept within what a `u32` can count.
pub open spec fn sample_count(duration: int, sample_rate: int) -> int {
    clamped(rounded(duration, sample_rate), 0, u32::MAX as int)
}

/// For a duration and a sample rate whose product fits, the number of frames
/// is their product in seconds rounded to the nearest whole number: it differs
/// from the exact product by half a frame at most, and a product that ends in
/// exactly half a frame is rounded up.
pub proof fn lemma_sample_count_rounds(duration: int, sample_rate: int)
    requires
        duration >= 0,
        sample_rate >= 0,
        rounded(duration, sample_rate) <= u32::MAX,
    ensures
        sample_count(duration, sample_rate) == rounded(duration, sample_rate),
        sample_count(duration, sample_rate) * SCALE - HALF <= duration * sample_rate,
        duration * sample_rate < sample_count(duration, sample_rate) * SCALE + HALF,
{
    let n = duration * sample_rate + HALF;
    assert(duration * sample_rate >= 0) by (nonlinear_arith)
        requires
            duration >= 0,
            sample_rate >= 0,
    ;
    vstd::arithmetic::div_mod::lemma_fundamental_div_mod(n, SCALE as int);
    vstd::arithmetic::div_mod::lemma_mod_bound(n, SCALE as int);
    vstd::arithmetic::div_mod::lemma_div_pos_is_pos(n, SCALE as int);
}

impl GeneratorParams {
    /// The parameters describe a piece that can be generated: a positive
    /// sample rate, duration, voice count and base frequency; ordered,
    /// non-negative ranges, the depth range within zero to one; level and mix
    /// within zero to one; attack and release non-negative and no longer than
    /// the piece; and a frame count, voice count and base frequency within
    /// what the arithmetic can carry.
    pub open spec fn valid(&self) -> bool {
        &&& self.sample_rate > 0
        &&& self.duration > 0
        &&& rounded(self.duration as int, self.sample_rate as int) <= u32::MAX
        &&& 0 < self.voices <= MAX_VOICES
        &&& 0 < self.base_freq <= MAX_BASE_FREQ
        &&& 0 <= self.lfo_range.0 <= self.lfo_range.1
        &&& 0 <= self.mod_depth_range.0 <= self.mod_depth_range.1 <= SCALE
        &&& 0 <= self.noise_level <= SCALE
        &&& 0 <= self.attack <= self.duration
        &&& 0 <= self.release <= self.duration
        &&& 0 <= self.reverb_mix <= SCALE
    }

    /// The number of frames that the piece is made of.
    pub fn num_samples(&self) -> (count: u32)
        ensures
            count == sample_count(self.duration as int, self.sample_rate as int),
    {
        assert(-0x8000_0000_0000_0000 * 0x1_0000_0000 <= self.duration * self.sample_rate
            <= 0x8000_0000_0000_0000 * 0x1_0000_0000) by (nonlinear_arith)
            requires
                -0x8000_0000_0000_0000 <= self.duration < 0x8000_0000_0000_0000,
                0 <= self.sample_rate < 0x1_0000_0000,
        ;
        let wide: i128 = (self.duration as i128) * (self.sample_rate as i128) + (HALF as i128);
        let frames: i128 = div_floor(wide, SCALE as i128);
        if frames < 0 {
            0
        } else if frames > u32::MAX as i128 {
            u32::MAX
        } else {
            frames as u32
        }
    }

    /// Accepts the parameters exactly if they are valid.
    pub fn validate(&self) -> (res: Result<(), Error>)
        ensures
            self.valid() ==> res == Ok::<(), Error>(()),
            !self.valid() ==> res == Err::<(), Error>(Error::InvalidParameter),
    {
        if self.sample_rate == 0 || self.duration <= 0 {
            return Err(Error::InvalidParameter);
        }
        assert(0 <= self.duration * self.sample_rate <= 0x8000_0000_0000_0000 * 0x1_0000_0000)
            by (nonlinear_arith)
            requires
                0 <= self.duration < 0x8000_0000_0000_0000,
                0 <= self.sample_rate < 0x1_0000_0000,
        ;
        let wide: i128 = (self.duration as i128) * (self.sample_rate as i128) + (HALF as i128);
        let frames: i128 = div_floor(wide, SCALE as i128);
        if frames > u32::MAX as i128 {
            return Err(Error::InvalidParameter);
        }
        if self.voices == 0 || self.voices > MAX_VOICES {
            return Err(Error::InvalidParameter);
        }
        if self.base_freq <= 0 || self.base_freq > MAX_BASE_FREQ {
            return Err(Error::InvalidParameter);
        }
        if self.lfo_range.0 < 0 || self.lfo_range.0 > self.lfo_range.1 {
            return Err(Error::InvalidParameter);
        }
        if self.mod_depth_range.0 < 0 || self.mod_depth_range.0 > self.mod_depth_range.1
            || self.mod_depth_range.1 > SCALE {
            return Err(Error::InvalidParameter);
        }
        if self.noise_level < 0 || self.noise_level > SCALE {
            return Err(Error::InvalidParameter);
        }
        if self.attack < 0 || self.attack > self.duration {
            return Err(Error::InvalidParameter);
        }
        if self.release < 0 || self.release > self.duration {
            return Err(Error::InvalidParameter);
        }
        if self.reverb_mix < 0 || self.reverb_mix > SCALE {
            return Err(Error::InvalidParameter);
        }
        Ok(())
    }
}

} // verus!

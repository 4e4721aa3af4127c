//! The output format: each channel value becomes a signed 16-bit integer, the
//! two channels of a frame side by side, left first.

use vstd::prelude::*;
use crate::fixed::{SCALE, clamped, div_toward_zero, lemma_quot_bounds, magnitude, quot};

verus! {

/// The 16-bit value that stands for full scale.
pub const PCM_PEAK: i64 = 32767;

/// One step of the 16-bit scale in millionths, rounded up.
pub const QUANT_STEP: i64 = 31;

/// The 16-bit value of an amplitude: the amplitude times 32767, rounded toward
/// zero, and limited to the range of 16 bits.
pub open spec fn quantized(value: int) -> int {
    clamped(quot(value * PCM_PEAK, SCALE as int), i16::MIN as int, i16::MAX as int)
}

/// The amplitude that a 16-bit value stands for: the value divided by 32767.
pub open spec fn dequantized(level: int) -> int {
    quot(level * SCALE, PCM_PEAK as int)
}

/// The interleaved 16-bit samples of a buffer: frame `i` gives the samples
/// `2 i` (left) and `2 i + 1` (right).
pub open spec fn pcm_of(frames: Seq<(i64, i64)>) -> Seq<i16> {
    Seq::new(
        2 * frames.len(),
        |k: int|
            if k % 2 == 0 {
                quantized(frames[k / 2].0 as int) as i16
            } else {
                quantized(frames[k / 2].1 as int) as i16
            },
    )
}

/// An amplitude within full scale that is turned into 16 bits and back comes
/// out within one step of the 16-bit scale of where it was, and no further
/// from zero.
pub proof fn lemma_round_trip(value: int)
    requires
        -SCALE <= value <= SCALE,
    ensures
        magnitude(dequantized(quantized(value)) - value) <= QUANT_STEP,
        magnitude(dequantized(quantized(value))) <= magnitude(value),
{
    let level = quot(value * PCM_PEAK, SCALE as int);
    lemma_quot_bounds(value * PCM_PEAK, SCALE as int);
    assert(level == quantized(value));
    lemma_quot_bounds(level * SCALE, PCM_PEAK as int);
}

/// The 16-bit value of an amplitude.
pub fn quantize(value: i64) -> (level: i16)
    ensures
        level == quantized(value as int),
{
    let wide: i128 = (value as i128) * (PCM_PEAK as i128);
    let q: i128 = div_toward_zero(wide, SCALE as i128);
    if q < i16::MIN as i128 {
        i16::MIN
    } else if q > i16::MAX as i128 {
        i16::MAX
    } else {
        q as i16
    }
}

/// The amplitude that a 16-bit value stands for.
pub fn dequantize(level: i16) -> (value: i64)
    ensures
        value == dequantized(level as int),
        -SCALE - QUANT_STEP <= value <= SCALE,
{
    let wide: i128 = (level as i128) * (SCALE as i128);
    let q: i128 = div_toward_zero(wide, PCM_PEAK as i128);
    proof {
        lemma_quot_bounds(level * SCALE, PCM_PEAK as int);
    }
    q as i64
}

/// The interleaved 16-bit samples of a buffer.
pub fn frames_to_pcm(frames: &Vec<(i64, i64)>) -> (pcm: Vec<i16>)
    ensures
        pcm@ == pcm_of(frames@),
{
    let mut pcm: Vec<i16> = Vec::new();
    let mut i: usize = 0;
    while i < frames.len()
        invariant
            i <= frames.len(),
            pcm.len() == 2 * i,
            forall|k: int| 0 <= k < 2 * i ==> #[trigger] pcm[k] == pcm_of(frames@)[k],
        decreases frames.len() - i,
    {
        let (l, r) = frames[i];
        let ls: i16 = quantize(l);
        let rs: i16 = quantize(r);
        pcm.push(ls);
        pcm.push(rs);
        i = i + 1;
    }
    assert(pcm@ =~= pcm_of(frames@));
    pcm
}

} // verus!

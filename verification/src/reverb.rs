//! The reverb: one feedback delay line per channel, run over the finished
//! buffer in a single forward pass.
//!
//! Frame `i` reads the slot `i mod D` of a ring of `D` slots and then writes
//! it, so that what it reads is what frame `i - D` left there: that frame's dry
//! value plus the feedback share of what that frame had read in its turn.

use vstd::prelude::*;
use crate::error::Error;
use crate::fixed::{
    AMP_LIMIT, SCALE, blend, blend_fixed, lemma_blend_between, lemma_quot_bounds,
    magnitude, mul_fixed, rounded, scaled,
};

verus! {

/// The share of a delayed value that is fed back into the delay line: 0.7.
pub const FEEDBACK: i64 = 700_000;

/// The length of the delay in seconds: 0.05.
pub const DELAY_TIME: i64 = 50_000;

/// The number of slots of the delay line at a given sample rate: the frames
/// that make up the delay time, rounded to the nearest whole number.
pub open spec fn delay_len(sample_rate: int) -> int {
    rounded(DELAY_TIME as int, sample_rate)
}

/// What frame `i` finds in the delay line: nothing during the first `delay`
/// frames, afterwards the dry value of the frame one delay earlier plus the
/// feedback share of what that frame found.
pub open spec fn wet(dry: Seq<(i64, i64)>, delay: int, i: int) -> (int, int)
    decreases i,
{
    if delay <= 0 || i < delay {
        (0, 0)
    } else {
        let earlier = wet(dry, delay, i - delay);
        (
            dry[i - delay].0 + scaled(earlier.0, FEEDBACK as int),
            dry[i - delay].1 + scaled(earlier.1, FEEDBACK as int),
        )
    }
}

/// Frame `i` of the output: the weighted mean of the dry frame and of what the
/// delay line holds for it, with the weight `mix` on the latter.
pub open spec fn reverb_frame(dry: Seq<(i64, i64)>, delay: int, mix: int, i: int) -> (int, int) {
    (
        blend(dry[i].0 as int, wet(dry, delay, i).0, mix),
        blend(dry[i].1 as int, wet(dry, delay, i).1, mix),
    )
}

/// Every frame of `frames` is within `limit` in both channels.
pub open spec fn within(frames: Seq<(i64, i64)>, limit: int) -> bool {
    forall|i: int|
        0 <= i < frames.len() ==> magnitude(#[trigger] frames[i].0 as int) <= limit && magnitude(
            frames[i].1 as int,
        ) <= limit
}

/// The feedback share of a value is at most seven tenths of it.
proof fn lemma_feedback_share(x: int)
    ensures
        10 * magnitude(scaled(x, FEEDBACK as int)) <= 7 * magnitude(x),
{
    let q = magnitude(scaled(x, FEEDBACK as int));
    lemma_quot_bounds(x * FEEDBACK, SCALE as int);
    assert(magnitude(x * 700_000) == 700_000 * magnitude(x)) by (nonlinear_arith);
}

/// What the delay line holds stays within four times the bound of the input.
pub proof fn lemma_wet_bounded(dry: Seq<(i64, i64)>, delay: int, i: int, limit: int)
    requires
        within(dry, limit),
        0 <= limit,
        delay <= 0 || i < dry.len() + delay,
    ensures
        magnitude(wet(dry, delay, i).0) <= 4 * limit,
        magnitude(wet(dry, delay, i).1) <= 4 * limit,
    decreases i,
{
    if delay <= 0 || i < delay {
    } else {
        lemma_wet_bounded(dry, delay, i - delay, limit);
        let earlier = wet(dry, delay, i - delay);
        lemma_feedback_share(earlier.0);
        lemma_feedback_share(earlier.1);
        assert(magnitude(dry[i - delay].0 as int) <= limit);
    }
}

/// The output of the reverb stays within four times the bound of the input.
pub proof fn lemma_reverb_bounded(dry: Seq<(i64, i64)>, delay: int, mix: int, i: int, limit: int)
    requires
        within(dry, limit),
        0 <= limit,
        0 <= mix <= SCALE,
        0 <= i < dry.len(),
    ensures
        magnitude(reverb_frame(dry, delay, mix, i).0) <= 4 * limit,
        magnitude(reverb_frame(dry, delay, mix, i).1) <= 4 * limit,
{
    lemma_wet_bounded(dry, delay, i, limit);
    assert(magnitude(dry[i].0 as int) <= limit);
    lemma_blend_between(dry[i].0 as int, wet(dry, delay, i).0, mix);
    lemma_blend_between(dry[i].1 as int, wet(dry, delay, i).1, mix);
}

/// With the mix at zero the reverb leaves every frame as it was.
pub proof fn lemma_reverb_dry(dry: Seq<(i64, i64)>, delay: int, i: int)
    requires
        0 <= i < dry.len(),
    ensures
        reverb_frame(dry, delay, 0, i) == (dry[i].0 as int, dry[i].1 as int),
{
    lemma_blend_between(dry[i].0 as int, wet(dry, delay, i).0, 0);
    lemma_blend_between(dry[i].1 as int, wet(dry, delay, i).1, 0);
}

/// With the mix at one the output is what the delay line holds, with no share
/// of the dry frame.
pub proof fn lemma_reverb_wet(dry: Seq<(i64, i64)>, delay: int, i: int)
    requires
        0 <= i < dry.len(),
    ensures
        reverb_frame(dry, delay, SCALE as int, i) == wet(dry, delay, i),
{
    lemma_blend_between(dry[i].0 as int, wet(dry, delay, i).0, SCALE as int);
    lemma_blend_between(dry[i].1 as int, wet(dry, delay, i).1, SCALE as int);
}

/// The delay line of a silent buffer stays empty.
pub proof fn lemma_wet_of_silence(dry: Seq<(i64, i64)>, delay: int, i: int)
    requires
        forall|k: int| 0 <= k < dry.len() ==> dry[k] == (0i64, 0i64),
        delay <= 0 || i < dry.len() + delay,
    ensures
        wet(dry, delay, i) == (0int, 0int),
    decreases i,
{
    if delay <= 0 || i < delay {
    } else {
        lemma_wet_of_silence(dry, delay, i - delay);
        assert(0int * FEEDBACK == 0);
        lemma_quot_bounds(0, SCALE as int);
    }
}

/// Silence stays silence at any mix.
pub proof fn lemma_reverb_of_silence(dry: Seq<(i64, i64)>, delay: int, mix: int, i: int)
    requires
        forall|k: int| 0 <= k < dry.len() ==> dry[k] == (0i64, 0i64),
        0 <= mix <= SCALE,
        0 <= i < dry.len(),
    ensures
        reverb_frame(dry, delay, mix, i) == (0int, 0int),
{
    lemma_wet_of_silence(dry, delay, i);
    lemma_blend_between(0, 0, mix);
}

/// The number of slots of the delay line at `sample_rate` frames per second.
pub fn delay_length(sample_rate: u32) -> (slots: usize)
    ensures
        slots == delay_len(sample_rate as int),
        slots <= sample_rate,
{
    let wide: u64 = (sample_rate as u64) * 50_000 + 500_000;
    (wide / 1_000_000) as usize
}

/// A delay line of `slots` empty slots.
fn empty_line(slots: usize) -> (line: Vec<i64>)
    ensures
        line.len() == slots,
        forall|j: int| 0 <= j < slots ==> line[j] == 0,
{
    let mut line: Vec<i64> = Vec::new();
    while line.len() < slots
        invariant
            line.len() <= slots,
            forall|j: int| 0 <= j < line.len() ==> line[j] == 0,
        decreases slots - line.len(),
    {
        line.push(0);
    }
    line
}

/// Runs the reverb over `samples` in place.
///
/// Fails, and leaves the buffer as it was, where the delay line would have no
/// slot. Otherwise every frame becomes the weighted mean of itself and of what
/// the delay line holds for it.
pub fn apply_reverb(samples: &mut Vec<(i64, i64)>, sample_rate: u32, mix: i64) -> (res: Result<
    (),
    Error,
>)
    requires
        0 <= mix <= SCALE,
        within(old(samples)@, AMP_LIMIT as int),
    ensures
        final(samples).len() == old(samples).len(),
        delay_len(sample_rate as int) == 0 ==> res == Err::<(), Error>(Error::ArithmeticDegeneracy)
            && final(samples)@ == old(samples)@,
        delay_len(sample_rate as int) > 0 ==> res == Ok::<(), Error>(()) && forall|i: int|
            0 <= i < old(samples).len() ==> (final(samples)[i].0 as int, final(samples)[i].1 as int)
                == #[trigger] reverb_frame(
                old(samples)@,
                delay_len(sample_rate as int),
                mix as int,
                i,
            ),
        within(final(samples)@, 4 * AMP_LIMIT),
{
    let delay: usize = delay_length(sample_rate);
    if delay == 0 {
        return Err(Error::ArithmeticDegeneracy);
    }
    let ghost dry = samples@;
    let mut line_l: Vec<i64> = empty_line(delay);
    let mut line_r: Vec<i64> = empty_line(delay);
    let mut idx: usize = 0;
    let mut i: usize = 0;
    let ghost base: int = 0;
    while i < samples.len()
        invariant
            0 <= mix <= SCALE,
            delay > 0,
            delay == delay_len(sample_rate as int),
            within(dry, AMP_LIMIT as int),
            samples.len() == dry.len(),
            i <= samples.len(),
            idx < delay,
            i == base + idx,
            line_l.len() == delay,
            line_r.len() == delay,
            forall|k: int| i <= k < dry.len() ==> samples[k] == dry[k],
            forall|k: int|
                0 <= k < i ==> (samples[k].0 as int, samples[k].1 as int) == #[trigger] reverb_frame(
                    dry,
                    delay as int,
                    mix as int,
                    k,
                ),
            forall|k: int|
                0 <= k < i ==> magnitude(#[trigger] samples[k].0 as int) <= 4 * AMP_LIMIT
                    && magnitude(samples[k].1 as int) <= 4 * AMP_LIMIT,
            forall|j: int|
                0 <= j < delay ==> (#[trigger] line_l[j] as int, line_r[j] as int) == wet(
                    dry,
                    delay as int,
                    if j >= idx {
                        base + j
                    } else {
                        base + delay + j
                    },
                ),
        decreases samples.len() - i,
    {
        let (dry_l, dry_r) = samples[i];
        let wet_l: i64 = line_l[idx];
        let wet_r: i64 = line_r[idx];
        proof {
            assert(magnitude(dry[i as int].0 as int) <= AMP_LIMIT);
            lemma_wet_bounded(dry, delay as int, i as int, AMP_LIMIT as int);
            lemma_feedback_share(wet_l as int);
            lemma_feedback_share(wet_r as int);
            lemma_blend_between(dry_l as int, wet_l as int, mix as int);
            lemma_blend_between(dry_r as int, wet_r as int, mix as int);
        }
        let out_l: i64 = blend_fixed(dry_l, wet_l, mix);
        let out_r: i64 = blend_fixed(dry_r, wet_r, mix);
        let fed_l: i64 = mul_fixed(wet_l, FEEDBACK);
        let fed_r: i64 = mul_fixed(wet_r, FEEDBACK);
        line_l.set(idx, dry_l + fed_l);
        line_r.set(idx, dry_r + fed_r);
        samples.set(i, (out_l, out_r));
        proof {
            assert((line_l[idx as int] as int, line_r[idx as int] as int) == wet(
                dry,
                delay as int,
                i + delay,
            ));
        }
        idx = idx + 1;
        if idx == delay {
            idx = 0;
            proof {
                base = base + delay;
            }
        }
        i = i + 1;
    }
    proof {
        assert forall|k: int| 0 <= k < samples.len() implies magnitude(
            #[trigger] samples[k].0 as int,
        ) <= 4 * AMP_LIMIT && magnitude(samples[k].1 as int) <= 4 * AMP_LIMIT by {}
    }
    Ok(())
}

} // verus!

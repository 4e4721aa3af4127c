//! The mixer: it owns the voices, the filter state and the buffer, renders
//! the piece frame by frame in time order, and hands the buffer to the reverb.

use vstd::prelude::*;
use rand::rngs::StdRng;
use crate::envelope::{envelope_at, envelope_gain};
use crate::error::Error;
use crate::fixed::{AMP_LIMIT, SCALE, lemma_scaled_bound, lemma_scaled_within, magnitude, mul_fixed, scaled};
use crate::noise::{
    base_noise, base_noise_of, burst_env, filter_input, filter_noise_of, filter_step, grain_noise,
    grain_noise_of,
};
use crate::params::{GeneratorParams, MAX_BASE_FREQ, MAX_VOICES, sample_count};
use crate::pcm::{frames_to_pcm, pcm_of};
use crate::random::{in_span, uniform, unit_noise};
use crate::reverb::{apply_reverb, delay_len, lemma_reverb_bounded, reverb_frame, within};
use crate::voice::Voice;

verus! {

/// The least factor by which a voice is detuned from the base frequency: 0.8.
pub const DETUNE_LOW: i64 = 800_000;

/// The bound below which the detuning factor stays: 1.2.
pub const DETUNE_HIGH: i64 = 1_200_000;

/// The least pan rate of a voice: 0.01 hertz.
pub const PAN_RATE_LOW: i64 = 10_000;

/// The bound below which the pan rate of a voice stays: 0.05 hertz.
pub const PAN_RATE_HIGH: i64 = 50_000;

/// The largest magnitude of a rendered frame: every voice and every noise
/// layer at full scale.
pub const FRAME_LIMIT: i64 = 1_000_003_000_000;

/// The three draws that one frame consumes, each from minus one up to one:
/// one for the steady hiss, one for the bursts, one for the filtered hiss.
#[derive(Debug, Clone, Copy, PartialEq, Eq)]
pub struct NoiseDraws {
    /// The draw of the steady layer.
    pub base: i64,
    /// The draw of the gated layer.
    pub grain: i64,
    /// The draw of the filtered layer.
    pub filtered: i64,
}

impl NoiseDraws {
    /// Each draw lies from minus one up to, but not including, one.
    pub open spec fn in_range(self) -> bool {
        &&& -SCALE <= self.base < SCALE
        &&& -SCALE <= self.grain < SCALE
        &&& -SCALE <= self.filtered < SCALE
    }
}

/// The time in microseconds at which frame `index` sounds.
pub open spec fn frame_time(index: int, sample_rate: int) -> int {
    (index * SCALE) / sample_rate
}

/// The sum over the first `count` voices of what each adds to the two
/// channels at `time`.
pub open spec fn voices_sum(voices: Seq<Voice>, count: int, time: int) -> (int, int)
    decreases count,
{
    if count <= 0 {
        (0, 0)
    } else {
        let rest = voices_sum(voices, count - 1, time);
        let last = voices[count - 1].output(time);
        (rest.0 + last.0, rest.1 + last.1)
    }
}

/// The state of the filter after the first `count` of `draws` have passed
/// through it, starting from `start`.
pub open spec fn filter_after(start: (int, int), level: int, draws: Seq<NoiseDraws>, count: int) -> (
    int,
    int,
)
    decreases count,
{
    if count <= 0 {
        start
    } else {
        let earlier = filter_after(start, level, draws, count - 1);
        let input = filter_input(draws[count - 1].filtered as int, level);
        (filter_step(earlier.0, input), filter_step(earlier.1, input))
    }
}

/// One frame: the voices, the steady and the gated hiss and the output of the
/// filter are added up in each channel, and the sum is shaped by the envelope.
/// `filter` is the state of the filter after this frame's draw has passed
/// through it.
pub open spec fn frame(
    params: GeneratorParams,
    voices: Seq<Voice>,
    time: int,
    draws: NoiseDraws,
    filter: (int, int),
) -> (int, int) {
    let tones = voices_sum(voices, voices.len() as int, time);
    let hiss = base_noise(draws.base as int, params.noise_level as int) + grain_noise(
        draws.grain as int,
        params.noise_level as int,
        time,
    );
    let gain = envelope_gain(
        time,
        params.attack as int,
        params.release as int,
        params.duration as int,
    );
    (scaled(tones.0 + hiss + filter.0, gain), scaled(tones.1 + hiss + filter.1, gain))
}

/// `voice` is one that setup may have drawn for `params`: its frequency is the
/// base frequency times a factor from 0.8 up to 1.2, its swell rate and depth
/// come from their ranges, its pan rate from 0.01 up to 0.05 hertz.
pub open spec fn may_be_drawn(voice: Voice, params: GeneratorParams) -> bool {
    &&& exists|factor: int|
        DETUNE_LOW <= factor < DETUNE_HIGH && voice.freq == #[trigger] scaled(
            params.base_freq as int,
            factor,
        )
    &&& in_span(voice.lfo_rate as int, params.lfo_range.0 as int, params.lfo_range.1 as int)
    &&& in_span(
        voice.mod_depth as int,
        params.mod_depth_range.0 as int,
        params.mod_depth_range.1 as int,
    )
    &&& PAN_RATE_LOW <= voice.pan_rate < PAN_RATE_HIGH
}

/// The state of the filter after `count` draws depends on those draws alone.
pub proof fn lemma_filter_after_prefix(
    start: (int, int),
    level: int,
    a: Seq<NoiseDraws>,
    b: Seq<NoiseDraws>,
    count: int,
)
    requires
        count <= a.len(),
        count <= b.len(),
        forall|j: int| 0 <= j < count ==> a[j] == b[j],
    ensures
        filter_after(start, level, a, count) == filter_after(start, level, b, count),
    decreases count,
{
    if count > 0 {
        lemma_filter_after_prefix(start, level, a, b, count - 1);
    }
}

/// At time zero the voices add nothing to a frame, whatever was drawn for
/// them.
pub proof fn lemma_voices_silent_at_start(voices: Seq<Voice>, count: int)
    requires
        0 <= count <= voices.len(),
    ensures
        voices_sum(voices, count, 0) == (0int, 0int),
    decreases count,
{
    if count > 0 {
        lemma_voices_silent_at_start(voices, count - 1);
        crate::voice::lemma_voice_silent_at_start(voices[count - 1]);
    }
}

/// The time in microseconds at which frame `index` sounds.
pub fn frame_time_of(index: u32, sample_rate: u32) -> (time: u64)
    requires
        sample_rate > 0,
    ensures
        time == frame_time(index as int, sample_rate as int),
{
    ((index as u64) * 1_000_000) / (sample_rate as u64)
}

/// The base frequency times a detuning factor.
pub fn detune(base_freq: i64, factor: i64) -> (freq: i64)
    requires
        0 <= base_freq <= MAX_BASE_FREQ,
        0 <= factor <= DETUNE_HIGH,
    ensures
        freq == scaled(base_freq as int, factor as int),
        freq >= 0,
{
    proof {
        lemma_scaled_within(base_freq as int, factor as int, base_freq as int, 2);
        crate::fixed::lemma_quot_bounds(base_freq * factor, SCALE as int);
        assert(base_freq * factor >= 0) by (nonlinear_arith)
            requires
                base_freq >= 0,
                factor >= 0,
        ;
    }
    mul_fixed(base_freq, factor)
}

/// The mixer of one run.
pub struct Generator {
    params: GeneratorParams,
    voices: Vec<Voice>,
    num_samples: u32,
    samples: Vec<(i64, i64)>,
    filter_prev_l: i64,
    filter_prev_r: i64,
}

impl Generator {
    /// The parameters of the run.
    pub closed spec fn settings(&self) -> GeneratorParams {
        self.params
    }

    /// The voices of the run.
    pub closed spec fn bank(&self) -> Seq<Voice> {
        self.voices@
    }

    /// The number of frames that one pass of generation renders.
    pub closed spec fn planned(&self) -> int {
        self.num_samples as int
    }

    /// The frames rendered so far.
    pub closed spec fn frames(&self) -> Seq<(i64, i64)> {
        self.samples@
    }

    /// The last output of the low-pass filter in the left and in the right
    /// channel.
    pub closed spec fn filter(&self) -> (int, int) {
        (self.filter_prev_l as int, self.filter_prev_r as int)
    }

    /// The mixer is in order: its parameters are valid, it has the voices and
    /// the frame count that they ask for, each voice has a depth between zero
    /// and one, the filter state is within the noise level, and no frame
    /// exceeds the range of an amplitude.
    pub open spec fn wf(&self) -> bool {
        &&& self.settings().valid()
        &&& self.bank().len() == self.settings().voices
        &&& forall|i: int| 0 <= i < self.bank().len() ==> (#[trigger] self.bank()[i]).depth_in_range()
        &&& self.planned() == sample_count(
            self.settings().duration as int,
            self.settings().sample_rate as int,
        )
        &&& magnitude(self.filter().0) <= self.settings().noise_level
        &&& magnitude(self.filter().1) <= self.settings().noise_level
        &&& within(self.frames(), AMP_LIMIT as int)
    }

    /// This mixer is `before` after one pass of generation that consumed
    /// `draws`, three for each frame: the frames that were there are kept, one
    /// frame for each planned index is appended in time order, and the filter
    /// has taken in every draw meant for it.
    pub open spec fn rendered(&self, before: Generator, draws: Seq<NoiseDraws>) -> bool {
        &&& draws.len() == before.planned()
        &&& forall|i: int| 0 <= i < draws.len() ==> (#[trigger] draws[i]).in_range()
        &&& self.frames().len() == before.frames().len() + draws.len()
        &&& forall|i: int|
            0 <= i < before.frames().len() ==> #[trigger] self.frames()[i] == before.frames()[i]
        &&& forall|i: int|
            0 <= i < draws.len() ==> {
                let out = #[trigger] self.frames()[before.frames().len() + i];
                (out.0 as int, out.1 as int) == frame(
                    before.settings(),
                    before.bank(),
                    frame_time(i, before.settings().sample_rate as int),
                    draws[i],
                    filter_after(
                        before.filter(),
                        before.settings().noise_level as int,
                        draws,
                        i + 1,
                    ),
                )
            }
        &&& self.filter() == filter_after(
            before.filter(),
            before.settings().noise_level as int,
            draws,
            draws.len() as int,
        )
    }

    /// This mixer is one that setup may have made for `params`: in order, with
    /// voices drawn for `params`, an empty buffer and a filter at rest.
    pub open spec fn fresh_for(&self, params: GeneratorParams) -> bool {
        &&& self.wf()
        &&& self.settings() == params
        &&& self.frames().len() == 0
        &&& self.filter() == (0int, 0int)
        &&& forall|i: int|
            0 <= i < self.bank().len() ==> may_be_drawn(#[trigger] self.bank()[i], params)
    }

    /// This mixer is `before` after the reverb has run over its buffer: every
    /// frame is the weighted mean of the frame that was there and of what the
    /// delay line held for it, and nothing else has changed.
    pub open spec fn reverberated(&self, before: Generator) -> bool {
        &&& self.settings() == before.settings()
        &&& self.bank() == before.bank()
        &&& self.planned() == before.planned()
        &&& self.filter() == before.filter()
        &&& self.frames().len() == before.frames().len()
        &&& forall|i: int|
            0 <= i < before.frames().len() ==> (
                self.frames()[i].0 as int,
                self.frames()[i].1 as int,
            ) == #[trigger] reverb_frame(
                before.frames(),
                delay_len(before.settings().sample_rate as int),
                before.settings().reverb_mix as int,
                i,
            )
    }

    /// Draws the voices of a run: for each, a frequency near the base
    /// frequency, a swell rate and a depth from their ranges, and a pan rate.
    pub fn generate_voices(params: &GeneratorParams, rng: &mut StdRng) -> (voices: Vec<Voice>)
        requires
            params.valid(),
        ensures
            voices.len() == params.voices,
            forall|i: int| 0 <= i < voices.len() ==> may_be_drawn(#[trigger] voices[i], *params),
            forall|i: int| 0 <= i < voices.len() ==> (#[trigger] voices[i]).depth_in_range(),
    {
        let mut voices: Vec<Voice> = Vec::new();
        let mut made: usize = 0;
        while made < params.voices
            invariant
                params.valid(),
                made <= params.voices,
                voices.len() == made,
                forall|i: int| 0 <= i < voices.len() ==> may_be_drawn(#[trigger] voices[i], *params),
                forall|i: int| 0 <= i < voices.len() ==> (#[trigger] voices[i]).depth_in_range(),
            decreases params.voices - made,
        {
            let factor: i64 = uniform(rng, DETUNE_LOW, DETUNE_HIGH);
            let freq: i64 = detune(params.base_freq, factor);
            let lfo_rate: i64 = uniform(rng, params.lfo_range.0, params.lfo_range.1);
            let mod_depth: i64 = uniform(rng, params.mod_depth_range.0, params.mod_depth_range.1);
            let pan_rate: i64 = uniform(rng, PAN_RATE_LOW, PAN_RATE_HIGH);
            let voice = Voice { freq, lfo_rate, mod_depth, pan_rate };
            voices.push(voice);
            made = made + 1;
        }
        voices
    }

    /// Sets up a run: refuses parameters that are not valid, and otherwise
    /// draws the voices and starts with an empty buffer and a filter at rest.
    pub fn new(params: GeneratorParams, rng: &mut StdRng) -> (res: Result<Generator, Error>)
        ensures
            !params.valid() ==> res is Err && res->Err_0 == Error::InvalidParameter,
            params.valid() ==> res is Ok && res->Ok_0.fresh_for(params),
    {
        match params.validate() {
            Err(e) => {
                return Err(e);
            },
            Ok(()) => {},
        }
        let num_samples: u32 = params.num_samples();
        let voices: Vec<Voice> = Self::generate_voices(&params, rng);
        Ok(
            Generator {
                params,
                voices,
                num_samples,
                samples: Vec::new(),
                filter_prev_l: 0,
                filter_prev_r: 0,
            },
        )
    }

    /// Sets up a run with voices chosen by the caller instead of drawn: refuses
    /// parameters that are not valid, a bank that has not the number of voices
    /// that the parameters ask for, and a voice whose depth is not a share
    /// between zero and one.
    pub fn with_voices(params: GeneratorParams, voices: Vec<Voice>) -> (res: Result<
        Generator,
        Error,
    >)
        ensures
            res is Ok <==> params.valid() && voices.len() == params.voices && forall|i: int|
                0 <= i < voices.len() ==> (#[trigger] voices[i]).depth_in_range(),
            res is Err ==> res->Err_0 == Error::InvalidParameter,
            res is Ok ==> {
                let made = res->Ok_0;
                &&& made.wf()
                &&& made.settings() == params
                &&& made.bank() == voices@
                &&& made.frames().len() == 0
                &&& made.filter() == (0int, 0int)
            },
    {
        match params.validate() {
            Err(e) => {
                return Err(e);
            },
            Ok(()) => {},
        }
        if voices.len() != params.voices {
            return Err(Error::InvalidParameter);
        }
        let mut k: usize = 0;
        while k < voices.len()
            invariant
                k <= voices.len(),
                forall|i: int| 0 <= i < k ==> (#[trigger] voices[i]).depth_in_range(),
            decreases voices.len() - k,
        {
            if voices[k].mod_depth < 0 || voices[k].mod_depth > SCALE {
                assert(!voices[k as int].depth_in_range());
                return Err(Error::InvalidParameter);
            }
            k = k + 1;
        }
        let num_samples: u32 = params.num_samples();
        Ok(
            Generator {
                params,
                voices,
                num_samples,
                samples: Vec::new(),
                filter_prev_l: 0,
                filter_prev_r: 0,
            },
        )
    }

    /// Reads a range written as two numbers with a colon between them; see
    /// [`crate::decimal::parse_range`].
    pub fn parse_range(s: &String, default_min: i64, default_max: i64) -> (range: (i64, i64))
        ensures
            (range.0 as int, range.1 as int) == crate::decimal::range_in(
                vstd::utf8::encode_utf8(s@),
                default_min as int,
                default_max as int,
            ),
    {
        crate::decimal::parse_range(s.as_str(), default_min, default_max)
    }

    /// The layout in which a piece of the given sample rate is stored; see
    /// [`crate::config::wav_spec`].
    pub fn spec(sample_rate: u32) -> (spec: crate::config::WavSpec)
        ensures
            spec == (crate::config::WavSpec {
                channels: 2,
                sample_rate: sample_rate,
                bits_per_sample: 16,
                sample_format: crate::config::SampleFormat::Int,
            }),
    {
        crate::config::wav_spec(sample_rate)
    }

    /// The parameters of the run.
    pub fn params(&self) -> (params: &GeneratorParams)
        ensures
            *params == self.settings(),
    {
        &self.params
    }

    /// The voices of the run.
    pub fn voices(&self) -> (voices: &Vec<Voice>)
        ensures
            voices@ == self.bank(),
    {
        &self.voices
    }

    /// The number of frames that one pass of generation renders.
    pub fn num_samples(&self) -> (count: u32)
        ensures
            count == self.planned(),
    {
        self.num_samples
    }

    /// The frames rendered so far.
    pub fn samples(&self) -> (frames: &Vec<(i64, i64)>)
        ensures
            frames@ == self.frames(),
    {
        &self.samples
    }

    /// The gain of the envelope at `time` microseconds.
    pub fn envelope(&self, time: u64) -> (gain: i64)
        requires
            self.wf(),
        ensures
            gain == envelope_gain(
                time as int,
                self.settings().attack as int,
                self.settings().release as int,
                self.settings().duration as int,
            ),
            0 <= gain <= SCALE,
    {
        envelope_at(
            time,
            self.params.attack as u64,
            self.params.release as u64,
            self.params.duration as u64,
        )
    }

    /// The steady hiss of one frame, for a draw taken from `rng`.
    pub fn noise(&self, rng: &mut StdRng) -> (hiss: i64)
        requires
            self.wf(),
        ensures
            exists|draw: int|
                -SCALE <= draw < SCALE && hiss == #[trigger] base_noise(
                    draw,
                    self.settings().noise_level as int,
                ),
    {
        let draw: i64 = unit_noise(rng);
        base_noise_of(draw, self.params.noise_level)
    }

    /// The burst gate at `t` microseconds.
    pub fn burst_env(t: u64) -> (gate: i64)
        ensures
            gate == crate::noise::burst(t as int),
            0 <= gate <= SCALE,
    {
        burst_env(t)
    }

    /// The gated hiss of the frame at `time` microseconds, for a draw taken
    /// from `rng`.
    pub fn granular_noise(&self, time: u64, rng: &mut StdRng) -> (hiss: i64)
        requires
            self.wf(),
        ensures
            exists|draw: int|
                -SCALE <= draw < SCALE && hiss == #[trigger] grain_noise(
                    draw,
                    self.settings().noise_level as int,
                    time as int,
                ),
    {
        let draw: i64 = unit_noise(rng);
        grain_noise_of(draw, self.params.noise_level, time)
    }

    /// Passes `draw` through the low-pass filter and returns its new state in
    /// both channels, which is the filtered hiss of the frame.
    pub fn filter_with(&mut self, draw: i64) -> (out: (i64, i64))
        requires
            old(self).wf(),
            -SCALE <= draw < SCALE,
        ensures
            final(self).wf(),
            final(self).settings() == old(self).settings(),
            final(self).bank() == old(self).bank(),
            final(self).planned() == old(self).planned(),
            final(self).frames() == old(self).frames(),
            final(self).filter() == (out.0 as int, out.1 as int),
            out.0 == filter_step(
                old(self).filter().0,
                filter_input(draw as int, old(self).settings().noise_level as int),
            ),
            out.1 == filter_step(
                old(self).filter().1,
                filter_input(draw as int, old(self).settings().noise_level as int),
            ),
    {
        let fl: i64 = filter_noise_of(self.filter_prev_l, draw, self.params.noise_level);
        let fr: i64 = filter_noise_of(self.filter_prev_r, draw, self.params.noise_level);
        self.filter_prev_l = fl;
        self.filter_prev_r = fr;
        (fl, fr)
    }

    /// The filtered hiss of one frame, for a draw taken from `rng`; the filter
    /// moves on by one step.
    pub fn filtered_noise(&mut self, _time: u64, rng: &mut StdRng) -> (out: (i64, i64))
        requires
            old(self).wf(),
        ensures
            final(self).wf(),
            final(self).settings() == old(self).settings(),
            final(self).bank() == old(self).bank(),
            final(self).planned() == old(self).planned(),
            final(self).frames() == old(self).frames(),
            final(self).filter() == (out.0 as int, out.1 as int),
            exists|draw: int|
                -SCALE <= draw < SCALE && out.0 == filter_step(
                    old(self).filter().0,
                    #[trigger] filter_input(draw, old(self).settings().noise_level as int),
                ) && out.1 == filter_step(
                    old(self).filter().1,
                    filter_input(draw, old(self).settings().noise_level as int),
                ),
    {
        let draw: i64 = unit_noise(rng);
        self.filter_with(draw)
    }

    /// Adds `value` to both channels and returns the new pair.
    pub fn mutate(left: &mut i64, right: &mut i64, value: &i64) -> (out: (i64, i64))
        requires
            i64::MIN <= *old(left) + *value <= i64::MAX,
            i64::MIN <= *old(right) + *value <= i64::MAX,
        ensures
            *final(left) == *old(left) + *value,
            *final(right) == *old(right) + *value,
            out == (*final(left), *final(right)),
    {
        *left = *left + *value;
        *right = *right + *value;
        (*left, *right)
    }

    /// What all voices together add to the two channels at `time`
    /// microseconds.
    pub fn sum_voices(&self, time: u64) -> (out: (i64, i64))
        requires
            self.wf(),
        ensures
            (out.0 as int, out.1 as int) == voices_sum(
                self.bank(),
                self.bank().len() as int,
                time as int,
            ),
            magnitude(out.0 as int) <= self.bank().len() * SCALE,
            magnitude(out.1 as int) <= self.bank().len() * SCALE,
    {
        let mut left: i64 = 0;
        let mut right: i64 = 0;
        let mut k: usize = 0;
        while k < self.voices.len()
            invariant
                self.wf(),
                k <= self.voices.len(),
                (left as int, right as int) == voices_sum(self.bank(), k as int, time as int),
                magnitude(left as int) <= k * SCALE,
                magnitude(right as int) <= k * SCALE,
            decreases self.voices.len() - k,
        {
            let (l_gain, r_gain) = self.voices[k].synthesize(time);
            left = left + l_gain;
            right = right + r_gain;
            k = k + 1;
        }
        (left, right)
    }

    /// Renders the frame at `time` microseconds from the three draws given:
    /// moves the filter on by one step and returns the frame. The buffer is
    /// left as it is.
    pub fn frame_with(&mut self, time: u64, draws: NoiseDraws) -> (out: (i64, i64))
        requires
            old(self).wf(),
            draws.in_range(),
        ensures
            final(self).wf(),
            final(self).settings() == old(self).settings(),
            final(self).bank() == old(self).bank(),
            final(self).planned() == old(self).planned(),
            final(self).frames() == old(self).frames(),
            final(self).filter() == (
                filter_step(
                    old(self).filter().0,
                    filter_input(draws.filtered as int, old(self).settings().noise_level as int),
                ),
                filter_step(
                    old(self).filter().1,
                    filter_input(draws.filtered as int, old(self).settings().noise_level as int),
                ),
            ),
            (out.0 as int, out.1 as int) == frame(
                old(self).settings(),
                old(self).bank(),
                time as int,
                draws,
                final(self).filter(),
            ),
            magnitude(out.0 as int) <= FRAME_LIMIT,
            magnitude(out.1 as int) <= FRAME_LIMIT,
    {
        let (mut left, mut right) = self.sum_voices(time);
        let level: i64 = self.params.noise_level;
        let hiss: i64 = base_noise_of(draws.base, level);
        let grain: i64 = grain_noise_of(draws.grain, level, time);
        let (l_filt, r_filt) = self.filter_with(draws.filtered);
        assert(self.bank().len() * SCALE <= MAX_VOICES * SCALE) by (nonlinear_arith)
            requires
                self.bank().len() <= MAX_VOICES,
        ;
        left = left + hiss + grain + l_filt;
        right = right + hiss + grain + r_filt;
        let env: i64 = self.envelope(time);
        proof {
            lemma_scaled_bound(left as int, env as int);
            lemma_scaled_bound(right as int, env as int);
        }
        (mul_fixed(left, env), mul_fixed(right, env))
    }

    /// Renders the piece: one frame for each planned index, in time order,
    /// appended to the buffer. Each frame takes three draws from `rng`.
    pub fn generate(&mut self, rng: &mut StdRng)
        requires
            old(self).wf(),
        ensures
            final(self).wf(),
            final(self).settings() == old(self).settings(),
            final(self).bank() == old(self).bank(),
            final(self).planned() == old(self).planned(),
            final(self).frames().len() == old(self).frames().len() + old(self).planned(),
            exists|draws: Seq<NoiseDraws>| final(self).rendered(*old(self), draws),
            forall|i: int|
                old(self).frames().len() <= i < final(self).frames().len() ==> magnitude(
                    (#[trigger] final(self).frames()[i]).0 as int,
                ) <= FRAME_LIMIT && magnitude(final(self).frames()[i].1 as int) <= FRAME_LIMIT,
    {
        let ghost mut draws: Seq<NoiseDraws> = Seq::empty();
        let ghost start = old(self).filter();
        let ghost level = old(self).settings().noise_level as int;
        let ghost kept = old(self).frames().len() as int;
        let count: u32 = self.num_samples;
        let rate: u32 = self.params.sample_rate;
        let mut i: u32 = 0;
        while i < count
            invariant
                self.wf(),
                self.settings() == old(self).settings(),
                self.bank() == old(self).bank(),
                self.planned() == old(self).planned(),
                count == self.planned(),
                rate == self.settings().sample_rate,
                start == old(self).filter(),
                level == old(self).settings().noise_level,
                kept == old(self).frames().len(),
                i <= count,
                draws.len() == i,
                forall|k: int| 0 <= k < draws.len() ==> (#[trigger] draws[k]).in_range(),
                self.frames().len() == kept + i,
                forall|k: int| 0 <= k < kept ==> #[trigger] self.frames()[k] == old(self).frames()[k],
                forall|k: int|
                    0 <= k < i ==> {
                        let out = #[trigger] self.frames()[kept + k];
                        (out.0 as int, out.1 as int) == frame(
                            old(self).settings(),
                            old(self).bank(),
                            frame_time(k, rate as int),
                            draws[k],
                            filter_after(start, level, draws, k + 1),
                        )
                    },
                forall|k: int|
                    kept <= k < kept + i ==> magnitude((#[trigger] self.frames()[k]).0 as int)
                        <= FRAME_LIMIT && magnitude(self.frames()[k].1 as int) <= FRAME_LIMIT,
                self.filter() == filter_after(start, level, draws, i as int),
            decreases count - i,
        {
            let t: u64 = frame_time_of(i, rate);
            let base: i64 = unit_noise(rng);
            let grain: i64 = unit_noise(rng);
            let filtered: i64 = unit_noise(rng);
            let drawn = NoiseDraws { base, grain, filtered };
            let ghost earlier = draws;
            let ghost frames_before = self.frames();
            let out = self.frame_with(t, drawn);
            self.samples.push(out);
            proof {
                draws = earlier.push(drawn);
                lemma_filter_after_prefix(start, level, earlier, draws, i as int);
                assert forall|k: int| 0 <= k < i implies {
                    let o = #[trigger] self.frames()[kept + k];
                    (o.0 as int, o.1 as int) == frame(
                        old(self).settings(),
                        old(self).bank(),
                        frame_time(k, rate as int),
                        draws[k],
                        filter_after(start, level, draws, k + 1),
                    )
                } by {
                    lemma_filter_after_prefix(start, level, earlier, draws, k + 1);
                    assert(self.frames()[kept + k] == frames_before[kept + k]);
                }
                assert(self.frames()[kept + i] == out);
            }
            i = i + 1;
        }
        proof {
            assert(self.rendered(*old(self), draws));
        }
    }

    /// Runs the reverb over the buffer.
    ///
    /// Fails, and leaves the buffer as it was, where the sample rate is so low
    /// that the delay line would have no slot.
    pub fn apply_reverb(&mut self) -> (res: Result<(), Error>)
        requires
            old(self).wf(),
            within(old(self).frames(), FRAME_LIMIT as int),
        ensures
            final(self).wf(),
            final(self).settings() == old(self).settings(),
            final(self).bank() == old(self).bank(),
            final(self).planned() == old(self).planned(),
            final(self).filter() == old(self).filter(),
            final(self).frames().len() == old(self).frames().len(),
            delay_len(old(self).settings().sample_rate as int) == 0 ==> res == Err::<(), Error>(
                Error::ArithmeticDegeneracy,
            ) && final(self).frames() == old(self).frames(),
            delay_len(old(self).settings().sample_rate as int) > 0 ==> res == Ok::<(), Error>(())
                && final(self).reverberated(*old(self)),
    {
        let ghost dry = self.samples@;
        let res = apply_reverb(&mut self.samples, self.params.sample_rate, self.params.reverb_mix);
        proof {
            if res is Ok {
                assert forall|i: int| 0 <= i < self.samples@.len() implies magnitude(
                    #[trigger] self.samples@[i].0 as int,
                ) <= AMP_LIMIT && magnitude(self.samples@[i].1 as int) <= AMP_LIMIT by {
                    lemma_reverb_bounded(
                        dry,
                        delay_len(self.params.sample_rate as int),
                        self.params.reverb_mix as int,
                        i,
                        FRAME_LIMIT as int,
                    );
                    assert((self.samples@[i].0 as int, self.samples@[i].1 as int) == reverb_frame(
                        dry,
                        delay_len(self.params.sample_rate as int),
                        self.params.reverb_mix as int,
                        i,
                    ));
                }
            }
        }
        res
    }

    /// The buffer as interleaved 16-bit samples, left before right.
    pub fn to_pcm(&self) -> (pcm: Vec<i16>)
        ensures
            pcm@ == pcm_of(self.frames()),
    {
        frames_to_pcm(&self.samples)
    }

    /// Renders the piece, runs the reverb over it and returns it as
    /// interleaved 16-bit samples.
    ///
    /// Fails before any frame is rendered where the sample rate is so low that
    /// the reverb delay line would have no slot.
    pub fn run(&mut self, rng: &mut StdRng) -> (res: Result<Vec<i16>, Error>)
        requires
            old(self).wf(),
            old(self).frames().len() == 0,
        ensures
            final(self).wf(),
            final(self).settings() == old(self).settings(),
            final(self).bank() == old(self).bank(),
            delay_len(old(self).settings().sample_rate as int) == 0 ==> res is Err && res->Err_0
                == Error::ArithmeticDegeneracy && *final(self) == *old(self),
            delay_len(old(self).settings().sample_rate as int) > 0 ==> res is Ok && res->Ok_0@
                == pcm_of(final(self).frames()) && final(self).frames().len() == old(
                self,
            ).planned() && exists|mid: Generator, draws: Seq<NoiseDraws>|
                mid.rendered(*old(self), draws) && final(self).reverberated(mid),
    {
        if crate::reverb::delay_length(self.params.sample_rate) == 0 {
            return Err(Error::ArithmeticDegeneracy);
        }
        self.generate(rng);
        let ghost mid = *self;
        let ghost draws = choose|draws: Seq<NoiseDraws>| self.rendered(*old(self), draws);
        match self.apply_reverb() {
            Err(e) => Err(e),
            Ok(()) => {
                let pcm = self.to_pcm();
                proof {
                    assert(mid.rendered(*old(self), draws) && self.reverberated(mid));
                }
                Ok(pcm)
            },
        }
    }
}

} // verus!

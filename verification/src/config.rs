//! Where the parameters of a run come from: the flags of a command line or a
//! stored configuration, each with the same defaults.

use vstd::prelude::*;
use vstd::string::StringSliceAdditionalSpecFns;
use crate::decimal::{parse_range, range_in};
use crate::filename::{OutputType, filename_text, generate_filename, is_uuid_text};
use crate::params::GeneratorParams;

verus! {

/// The default length of a piece: sixty seconds.
pub const DEFAULT_DURATION: i64 = 60_000_000;

/// The default sample rate in frames per second.
pub const DEFAULT_SAMPLE_RATE: u32 = 44100;

/// The default number of voices.
pub const DEFAULT_VOICES: usize = 4;

/// The default base frequency: 330 hertz.
pub const DEFAULT_BASE_FREQ: i64 = 330_000_000;

/// The default least swell rate: 0.05 hertz.
pub const DEFAULT_LFO_MIN: i64 = 50_000;

/// The default largest swell rate: 0.2 hertz.
pub const DEFAULT_LFO_MAX: i64 = 200_000;

/// The default least depth: 0.5.
pub const DEFAULT_DEPTH_MIN: i64 = 500_000;

/// The default largest depth: 1.0.
pub const DEFAULT_DEPTH_MAX: i64 = 1_000_000;

/// The default noise level: 0.005.
pub const DEFAULT_NOISE_LEVEL: i64 = 5_000;

/// The default attack: five seconds.
pub const DEFAULT_ATTACK: i64 = 5_000_000;

/// The default release: ten seconds.
pub const DEFAULT_RELEASE: i64 = 10_000_000;

/// The default reverb mix: 0.3.
pub const DEFAULT_REVERB_MIX: i64 = 300_000;

/// `name` is a name made up for a piece that was given none: a fresh
/// identifier, the stem `ambient` and the extension of a WAV file.
pub open spec fn is_made_up_name(name: Seq<char>) -> bool {
    exists|id: Seq<char>|
        is_uuid_text(id) && name == #[trigger] filename_text(id, "ambient"@, OutputType::WAV)
}

/// A stored configuration. Times are in microseconds, frequencies in
/// millionths of a hertz, levels and shares in millionths of one; a range is
/// its least value followed by its largest.
#[derive(Debug)]
pub struct JsonConfig {
    /// The name under which the result is to be stored, if one is wanted.
    pub output: Option<String>,
    /// The length of the piece.
    pub duration: i64,
    /// Frames per second.
    pub sample_rate: u32,
    /// The number of voices.
    pub voices: usize,
    /// The frequency around which the voices are detuned.
    pub base_freq: i64,
    /// The range of swell rates.
    pub lfo_rate_range: [i64; 2],
    /// The level of the noise layers.
    pub noise_level: i64,
    /// The range of depths.
    pub mod_depth_range: [i64; 2],
    /// The length of the fade in.
    pub attack: i64,
    /// The length of the fade out.
    pub release: i64,
    /// The weight of the delay line in the reverb.
    pub reverb_mix: i64,
}

impl Default for JsonConfig {
    fn default() -> (config: Self)
        ensures
            config.output is None,
            config.duration == DEFAULT_DURATION,
            config.sample_rate == DEFAULT_SAMPLE_RATE,
            config.voices == DEFAULT_VOICES,
            config.base_freq == DEFAULT_BASE_FREQ,
            config.lfo_rate_range@ == seq![DEFAULT_LFO_MIN, DEFAULT_LFO_MAX],
            config.noise_level == DEFAULT_NOISE_LEVEL,
            config.mod_depth_range@ == seq![DEFAULT_DEPTH_MIN, DEFAULT_DEPTH_MAX],
            config.attack == DEFAULT_ATTACK,
            config.release == DEFAULT_RELEASE,
            config.reverb_mix == DEFAULT_REVERB_MIX,
    {
        let config = JsonConfig {
            output: None,
            duration: 60_000_000,
            sample_rate: 44100,
            voices: 4,
            base_freq: 330_000_000,
            lfo_rate_range: [50_000, 200_000],
            noise_level: 5_000,
            mod_depth_range: [500_000, 1_000_000],
            attack: 5_000_000,
            release: 10_000_000,
            reverb_mix: 300_000,
        };
        assert(config.lfo_rate_range@ =~= seq![DEFAULT_LFO_MIN, DEFAULT_LFO_MAX]);
        assert(config.mod_depth_range@ =~= seq![DEFAULT_DEPTH_MIN, DEFAULT_DEPTH_MAX]);
        config
    }
}

impl JsonConfig {
    /// The parameters that the configuration describes: every value as it
    /// stands, and the name that was asked for, or a made-up one where none
    /// was.
    pub fn to_params(self) -> (params: GeneratorParams)
        ensures
            match self.output {
                Some(output) => params.filename@ == output@,
                None => is_made_up_name(params.filename@),
            },
            params.sample_rate == self.sample_rate,
            params.duration == self.duration,
            params.lfo_range == (self.lfo_rate_range[0], self.lfo_rate_range[1]),
            params.mod_depth_range == (self.mod_depth_range[0], self.mod_depth_range[1]),
            params.voices == self.voices,
            params.base_freq == self.base_freq,
            params.noise_level == self.noise_level,
            params.attack == self.attack,
            params.release == self.release,
            params.reverb_mix == self.reverb_mix,
    {
        let filename: String = match self.output {
            Some(output) => output,
            None => generate_filename("ambient", OutputType::WAV),
        };
        GeneratorParams {
            filename,
            sample_rate: self.sample_rate,
            duration: self.duration,
            lfo_range: (self.lfo_rate_range[0], self.lfo_rate_range[1]),
            mod_depth_range: (self.mod_depth_range[0], self.mod_depth_range[1]),
            voices: self.voices,
            base_freq: self.base_freq,
            noise_level: self.noise_level,
            attack: self.attack,
            release: self.release,
            reverb_mix: self.reverb_mix,
        }
    }
}

/// The flags of the command line, as they were given. The two ranges are
/// still text, written as two numbers with a colon between them.
#[derive(Debug)]
pub struct CLI {
    /// The stored configuration to use instead of the flags, if any.
    pub config: Option<String>,
    /// The name under which the result is to be stored, if one is wanted.
    pub output: Option<String>,
    /// The length of the piece.
    pub duration: i64,
    /// Frames per second.
    pub sample_rate: u32,
    /// The number of voices.
    pub voices: usize,
    /// The frequency around which the voices are detuned.
    pub base_freq: i64,
    /// The range of swell rates, as text.
    pub lfo_rate_range: String,
    /// The level of the noise layers.
    pub noise_level: i64,
    /// The range of depths, as text.
    pub mod_depth_range: String,
    /// The length of the fade in.
    pub attack: i64,
    /// The length of the fade out.
    pub release: i64,
    /// The weight of the delay line in the reverb.
    pub reverb_mix: i64,
}

impl CLI {
    /// The parameters that the flags describe, where no stored configuration
    /// takes their place: every value as it stands, each range read from its
    /// text with the default in place of what cannot be read, and the name
    /// that was asked for, or a made-up one where none was.
    pub fn to_params(self) -> (params: GeneratorParams)
        requires
            self.config is None,
        ensures
            match self.output {
                Some(output) => params.filename@ == output@,
                None => is_made_up_name(params.filename@),
            },
            params.sample_rate == self.sample_rate,
            params.duration == self.duration,
            (params.lfo_range.0 as int, params.lfo_range.1 as int) == range_in(
                vstd::utf8::encode_utf8(self.lfo_rate_range@),
                DEFAULT_LFO_MIN as int,
                DEFAULT_LFO_MAX as int,
            ),
            (params.mod_depth_range.0 as int, params.mod_depth_range.1 as int) == range_in(
                vstd::utf8::encode_utf8(self.mod_depth_range@),
                DEFAULT_DEPTH_MIN as int,
                DEFAULT_DEPTH_MAX as int,
            ),
            params.voices == self.voices,
            params.base_freq == self.base_freq,
            params.noise_level == self.noise_level,
            params.attack == self.attack,
            params.release == self.release,
            params.reverb_mix == self.reverb_mix,
    {
        let lfo_range = parse_range(self.lfo_rate_range.as_str(), DEFAULT_LFO_MIN, DEFAULT_LFO_MAX);
        let mod_depth_range = parse_range(
            self.mod_depth_range.as_str(),
            DEFAULT_DEPTH_MIN,
            DEFAULT_DEPTH_MAX,
        );
        let filename: String = match self.output {
            Some(output) => output,
            None => generate_filename("ambient", OutputType::WAV),
        };
        GeneratorParams {
            filename,
            sample_rate: self.sample_rate,
            duration: self.duration,
            lfo_range,
            mod_depth_range,
            voices: self.voices,
            base_freq: self.base_freq,
            noise_level: self.noise_level,
            attack: self.attack,
            release: self.release,
            reverb_mix: self.reverb_mix,
        }
    }
}

/// How the samples of a WAV file are encoded.
#[derive(Debug, Clone, Copy, PartialEq, Eq, Structural)]
pub enum SampleFormat {
    /// Floating-point samples.
    Float,
    /// Integer samples.
    Int,
}

/// The layout of a WAV file.
#[derive(Debug, Clone, Copy, PartialEq, Eq, Structural)]
pub struct WavSpec {
    /// The number of channels.
    pub channels: u16,
    /// Frames per second.
    pub sample_rate: u32,
    /// The number of bits in one sample.
    pub bits_per_sample: u16,
    /// The encoding of a sample.
    pub sample_format: SampleFormat,
}

/// The layout in which a piece is stored: two channels of 16-bit integer
/// samples at the sample rate of the piece.
pub fn wav_spec(sample_rate: u32) -> (spec: WavSpec)
    ensures
        spec == (WavSpec {
            channels: 2,
            sample_rate: sample_rate,
            bits_per_sample: 16,
            sample_format: SampleFormat::Int,
        }),
{
    WavSpec { channels: 2, sample_rate: sample_rate, bits_per_sample: 16, sample_format: SampleFormat::Int }
}

} // verus!

//! A procedural ambient synthesizer: detuned sine voices, layered noise, an
//! attack/release envelope and a feedback-delay reverb, computed in exact
//! fixed-point arithmetic.
//!
//! A run goes strictly forward: parameters, setup of the voices, one frame
//! after another in time order, one pass of the reverb over the finished
//! buffer, and the buffer as interleaved 16-bit samples.
//!
//! Every real quantity is a whole number of millionths ([`fixed`]): seconds
//! are microseconds, hertz are millionths of a hertz, and gains, levels and
//! amplitudes are millionths of one. All that is random is drawn from a
//! generator that the caller hands in ([`random`]), so that a seeded generator
//! gives the same piece again.
//!
//! The stages, leaf first: the oscillator ([`sine`]) and the voice built on it
//! ([`voice`]), the noise layers ([`noise`]), the envelope ([`envelope`]), the
//! mixer that owns them ([`generator`]), the reverb ([`reverb`]) and the
//! output format ([`pcm`]). Around them stand the parameter record
//! ([`params`]), its sources ([`config`], [`decimal`]) and the naming of
//! output files ([`filename`]). A small model of symbolic music ([`theory`],
//! [`events`]) stands beside the synthesizer.

use vstd::prelude::*;
use rand::rngs::StdRng;
use crate::error::Error;
use crate::generator::{Generator, NoiseDraws};
use crate::params::{GeneratorParams, sample_count};
use crate::pcm::pcm_of;
use crate::reverb::delay_len;

pub mod config;
pub mod decimal;
pub mod envelope;
pub mod error;
pub mod events;
pub mod filename;
pub mod fixed;
pub mod generator;
pub mod noise;
pub mod params;
pub mod pcm;
pub mod random;
pub mod reverb;
pub mod sine;
pub mod theory;
pub mod voice;

verus! {

/// Generates the piece that `params` describe and returns it as interleaved
/// 16-bit samples, two for each frame.
///
/// Parameters that are not valid are refused, and so is a sample rate at which
/// the reverb delay line would have no slot; in both cases nothing is
/// rendered. Otherwise the result is what setup, generation and reverb make of
/// the parameters and of the draws they take from `rng`.
pub fn run(params: GeneratorParams, rng: &mut StdRng) -> (res: Result<Vec<i16>, Error>)
    ensures
        !params.valid() ==> res is Err && res->Err_0 == Error::InvalidParameter,
        params.valid() && delay_len(params.sample_rate as int) == 0 ==> res is Err && res->Err_0
            == Error::ArithmeticDegeneracy,
        params.valid() && delay_len(params.sample_rate as int) > 0 ==> res is Ok
            && res->Ok_0@.len() == 2 * sample_count(
            params.duration as int,
            params.sample_rate as int,
        ) && exists|fresh: Generator, mid: Generator, done: Generator, draws: Seq<NoiseDraws>|
            fresh.fresh_for(params) && mid.rendered(fresh, draws) && done.reverberated(mid)
                && res->Ok_0@ == pcm_of(done.frames()),
{
    match Generator::new(params, rng) {
        Err(e) => Err(e),
        Ok(mut generator) => {
            let ghost fresh = generator;
            let res = generator.run(rng);
            proof {
                if res is Ok {
                    let (mid, draws) = choose|mid: Generator, draws: Seq<NoiseDraws>|
                        mid.rendered(fresh, draws) && generator.reverberated(mid);
                    assert(fresh.fresh_for(params) && mid.rendered(fresh, draws)
                        && generator.reverberated(mid));
                }
            }
            res
        },
    }
}

} // verus!

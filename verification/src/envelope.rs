//! The amplitude envelope: a linear attack ramp, a sustain plateau at full
//! gain, and a linear release ramp that ends with the piece.

use vstd::prelude::*;
use crate::fixed::{SCALE, clamped, lemma_quot_bounds, quot, ratio};

verus! {

/// The gain at `time` of an envelope that rises over `attack`, falls over the
/// last `release` of `duration`, and is one in between. All four are in
/// microseconds and non-negative.
///
/// The attack ramp is read first, so where the two ramps overlap the gain
/// follows the attack up to its end and the release from there on. A release
/// of no length cuts the gain to zero past the end.
pub open spec fn envelope_gain(time: int, attack: int, release: int, duration: int) -> int {
    clamped(
        if time < attack {
            ratio(time, attack)
        } else if time > duration - release {
            if release == 0 {
                0
            } else {
                ratio(duration - time, release)
            }
        } else {
            SCALE as int
        },
        0,
        SCALE as int,
    )
}

/// The envelope is silent at time zero, provided there is an attack at all.
pub proof fn lemma_envelope_starts_silent(attack: int, release: int, duration: int)
    requires
        attack > 0,
    ensures
        envelope_gain(0, attack, release, duration) == 0,
{
    assert(0int * SCALE == 0);
    lemma_quot_bounds(0, attack);
}

/// The envelope reaches full gain when the attack ends, provided the release
/// has not begun by then.
pub proof fn lemma_envelope_full_after_attack(attack: int, release: int, duration: int)
    requires
        attack + release <= duration,
    ensures
        envelope_gain(attack, attack, release, duration) == SCALE,
{
}

/// The envelope is silent when the piece ends, provided there is a release at
/// all and the attack is over by then.
pub proof fn lemma_envelope_ends_silent(attack: int, release: int, duration: int)
    requires
        release > 0,
        attack <= duration,
    ensures
        envelope_gain(duration, attack, release, duration) == 0,
{
    assert(0int * SCALE == 0);
    lemma_quot_bounds(0, release);
}

/// Within the attack the gain is the elapsed share of the attack, rounded
/// down: it rises linearly from zero.
pub proof fn lemma_envelope_attack_linear(time: int, attack: int, release: int, duration: int)
    requires
        0 <= time < attack,
    ensures
        envelope_gain(time, attack, release, duration) == (time * SCALE) / attack,
        envelope_gain(time, attack, release, duration) * attack <= time * SCALE,
        time * SCALE < (envelope_gain(time, attack, release, duration) + 1) * attack,
        0 <= envelope_gain(time, attack, release, duration) < SCALE,
{
    let s = SCALE as int;
    assert(0 <= time * s < s * attack) by (nonlinear_arith)
        requires
            0 <= time < attack,
            s > 0,
    ;
    lemma_quot_bounds(time * s, attack);
    let q = quot(time * s, attack);
    assert(q < s) by (nonlinear_arith)
        requires
            q * attack <= time * s,
            time * s < s * attack,
            attack > 0,
    ;
}

/// Within the release, once the attack is over, the gain is the remaining
/// share of the release, rounded down: it falls linearly to zero.
pub proof fn lemma_envelope_release_linear(time: int, attack: int, release: int, duration: int)
    requires
        attack <= time <= duration,
        duration - release < time,
    ensures
        envelope_gain(time, attack, release, duration) == ((duration - time) * SCALE) / release,
        envelope_gain(time, attack, release, duration) * release <= (duration - time) * SCALE,
        (duration - time) * SCALE < (envelope_gain(time, attack, release, duration) + 1)
            * release,
        0 <= envelope_gain(time, attack, release, duration) < SCALE,
{
    let s = SCALE as int;
    let left = duration - time;
    assert(0 <= left * s < s * release) by (nonlinear_arith)
        requires
            0 <= left < release,
            s > 0,
    ;
    lemma_quot_bounds(left * s, release);
    let q = quot(left * s, release);
    assert(q < s) by (nonlinear_arith)
        requires
            q * release <= left * s,
            left * s < s * release,
            release > 0,
    ;
}

/// Past the end of the piece the envelope is silent, once the attack is over
/// (as it is wherever the attack is no longer than the piece).
pub proof fn lemma_envelope_silent_past_end(time: int, attack: int, release: int, duration: int)
    requires
        0 <= release,
        attack <= time,
        duration < time,
    ensures
        envelope_gain(time, attack, release, duration) == 0,
{
    if release > 0 {
        let s = SCALE as int;
        assert((duration - time) * s < 0) by (nonlinear_arith)
            requires
                duration - time < 0,
                s > 0,
        ;
        lemma_quot_bounds((duration - time) * s, release);
    }
}

/// The gain at `time` of the envelope with the given attack, release and
/// duration, all in microseconds.
pub fn envelope_at(time: u64, attack: u64, release: u64, duration: u64) -> (gain: i64)
    ensures
        gain == envelope_gain(time as int, attack as int, release as int, duration as int),
        0 <= gain <= SCALE,
{
    if time < attack {
        proof {
            lemma_envelope_attack_linear(time as int, attack as int, release as int, duration as int);
        }
        let wide: u128 = (time as u128) * 1_000_000;
        (wide / (attack as u128)) as i64
    } else if (time as u128) + (release as u128) > (duration as u128) {
        if time > duration {
            proof {
                lemma_envelope_silent_past_end(
                    time as int,
                    attack as int,
                    release as int,
                    duration as int,
                );
            }
            0
        } else {
            proof {
                lemma_envelope_release_linear(
                    time as int,
                    attack as int,
                    release as int,
                    duration as int,
                );
            }
            let wide: u128 = ((duration - time) as u128) * 1_000_000;
            (wide / (release as u128)) as i64
        }
    } else {
        SCALE
    }
}

} // verus!

use procsynth::decimal::{parse_decimal, parse_range};
use procsynth::envelope::envelope_at;
use procsynth::error::Error;
use procsynth::fixed::{blend_fixed, div_floor, div_toward_zero, mul_fixed, rem_floor};
use procsynth::generator::frame_time_of;
use procsynth::noise::{burst_env, filter_noise_of};
use procsynth::params::GeneratorParams;
use procsynth::pcm::{dequantize, frames_to_pcm, quantize};
use procsynth::random::{uniform, unit_noise};
use procsynth::reverb::{apply_reverb, delay_length};
use procsynth::sine::{oscillate, phase_of, sine_of};
use procsynth::voice::Voice;
use rand::rngs::StdRng;
use rand::SeedableRng;

fn piece(duration: i64, sample_rate: u32) -> GeneratorParams {
    GeneratorParams {
        filename: String::new(),
        sample_rate,
        duration,
        lfo_range: (50_000, 200_000),
        mod_depth_range: (500_000, 1_000_000),
        voices: 4,
        base_freq: 330_000_000,
        noise_level: 5_000,
        attack: 0,
        release: 0,
        reverb_mix: 300_000,
    }
}

#[test]
fn the_frame_count_is_the_rounded_product() {
    assert_eq!(piece(20_000_000, 44100).num_samples(), 882_000);
    assert_eq!(piece(60_000_000, 44100).num_samples(), 2_646_000);
    // 0.1 seconds at 15 hertz is a frame and a half: halves round up.
    assert_eq!(piece(100_000, 15).num_samples(), 2);
    assert_eq!(piece(99_999, 15).num_samples(), 1);
    assert_eq!(piece(1, 1).num_samples(), 0);
    assert_eq!(piece(500_000, 1).num_samples(), 1);
    assert_eq!(piece(-5_000_000, 10).num_samples(), 0);
    assert_eq!(piece(i64::MAX, u32::MAX).num_samples(), u32::MAX);
    assert_eq!(frame_time_of(44100, 44100), 1_000_000);
    assert_eq!(frame_time_of(1, 44100), 22);
    assert_eq!(frame_time_of(0, 8000), 0);
}

#[test]
fn the_envelope_rises_holds_and_falls() {
    let (a, r, d) = (5_000_000, 10_000_000, 20_000_000);
    assert_eq!(envelope_at(0, a, r, d), 0);
    assert_eq!(envelope_at(a, a, r, d), 1_000_000);
    assert_eq!(envelope_at(d, a, r, d), 0);
    assert_eq!(envelope_at(1_250_000, a, r, d), 250_000);
    assert_eq!(envelope_at(17_500_000, a, r, d), 250_000);
    assert_eq!(envelope_at(1, 3, 0, 10), 333_333);
    for t in [d + 1, d + 1_000_000, u64::MAX] {
        assert_eq!(envelope_at(t, a, r, d), 0);
    }
}

#[test]
fn overlapping_ramps_are_read_attack_first() {
    // Attack 5, release 10, piece 12 seconds: the release has begun at 2.
    let (a, r, d) = (5_000_000, 10_000_000, 12_000_000);
    assert_eq!(envelope_at(4_000_000, a, r, d), 800_000);
    assert_eq!(envelope_at(5_000_000, a, r, d), 700_000);
    assert_eq!(envelope_at(7_000_000, a, r, d), 500_000);
    // Without attack or release the gain is one throughout and zero after.
    assert_eq!(envelope_at(0, 0, 0, 10), 1_000_000);
    assert_eq!(envelope_at(10, 0, 0, 10), 1_000_000);
    assert_eq!(envelope_at(11, 0, 0, 10), 0);
}

#[test]
fn the_sine_is_close_to_the_true_sine() {
    assert_eq!(sine_of(0), 0);
    assert_eq!(sine_of(125_000), 705_882);
    assert_eq!(sine_of(250_000), 1_000_000);
    assert_eq!(sine_of(500_000), 0);
    assert_eq!(sine_of(750_000), -1_000_000);
    assert_eq!(sine_of(999_999), -6);
    let mut worst: f64 = 0.0;
    for p in (0u64..1_000_000).step_by(7) {
        let exact = (2.0 * std::f64::consts::PI * p as f64 / 1e6).sin();
        let got = sine_of(p) as f64 / 1e6;
        worst = worst.max((got - exact).abs());
        assert_eq!(sine_of(p + 3_000_000), sine_of(p));
        assert_eq!(sine_of(1_000_000 - p), -sine_of(p));
    }
    assert!(worst < 0.0017);
}

#[test]
fn an_oscillator_advances_by_frequency_times_time() {
    // 440 hertz after a quarter of its period is a quarter turn on.
    assert_eq!(phase_of(440_000_000, 568), 249_920);
    assert_eq!(phase_of(1_000_000, 1_250_000), 250_000);
    assert_eq!(phase_of(-1_000_000, 250_000), 750_000);
    assert_eq!(phase_of(0, u64::MAX), 0);
    assert_eq!(oscillate(1_000_000, 250_000), 1_000_000);
    assert_eq!(oscillate(-1_000_000, 250_000), -1_000_000);
    assert!(phase_of(i64::MAX, u64::MAX) < 1_000_000);
    assert!(phase_of(i64::MIN, u64::MAX) < 1_000_000);
}

#[test]
fn the_burst_gate_repeats_every_tenth_of_a_second() {
    assert_eq!(burst_env(25_000), 1_000_000);
    assert_eq!(burst_env(75_000), 0);
    assert_eq!(burst_env(12_345), 849_492);
    for t in (0u64..300_000).step_by(997) {
        let gate = burst_env(t);
        assert!((0..=1_000_000).contains(&gate));
        assert_eq!(burst_env(t + 100_000), gate);
        assert_eq!(burst_env(t + 4_200_000), gate);
    }
}

#[test]
fn the_filter_moves_between_its_state_and_its_input() {
    assert_eq!(blend_fixed(0, 300, 100_000), 30);
    assert_eq!(blend_fixed(-7, 5, 100_000), -5);
    assert_eq!(blend_fixed(5, 5, 100_000), 5);
    assert_eq!(blend_fixed(i64::MIN, i64::MAX, 500_000), 0);
    let mut state: i64 = -900;
    for draw in [1_000_000i64, -1_000_000, 3, 999_999, 0, -5] {
        let input = mul_fixed(mul_fixed(draw, 1_000_000), 300_000);
        let next = filter_noise_of(state, draw, 1_000_000);
        assert!(next >= state.min(input) && next <= state.max(input));
        state = next;
    }
}

#[test]
fn a_voice_is_silent_at_time_zero() {
    for (freq, lfo, depth, pan) in
        [(440_000_000, 100_000, 500_000, 20_000), (i64::MAX, i64::MIN, 1_000_000, -7), (0, 0, 0, 0)]
    {
        let voice = Voice { freq, lfo_rate: lfo, mod_depth: depth, pan_rate: pan };
        assert_eq!(voice.synthesize(0), (0, 0));
    }
    let voice = Voice { freq: 330_000_000, lfo_rate: 200_000, mod_depth: 1_000_000, pan_rate: 50_000 };
    assert_eq!(voice.synthesize(1_000_000), (0, 0));
    assert_eq!(voice.synthesize(2_501_137), (51_715, 300_247));
}

#[test]
fn the_delay_line_holds_a_twentieth_of_a_second() {
    assert_eq!(delay_length(44100), 2205);
    assert_eq!(delay_length(48000), 2400);
    assert_eq!(delay_length(30), 2);
    assert_eq!(delay_length(29), 1);
    assert_eq!(delay_length(10), 1);
    assert_eq!(delay_length(9), 0);
    assert_eq!(delay_length(0), 0);
    assert_eq!(delay_length(u32::MAX), 214_748_365);
}

#[test]
fn the_reverb_reads_each_slot_before_it_writes_it() {
    let dry: Vec<(i64, i64)> =
        [1_000_000, 0, 0, 0, 0, -500_000, 0, 0].iter().map(|&x| (x, -x)).collect();
    // Thirty frames a second make a delay line of two slots.
    let mut mixed = dry.clone();
    assert_eq!(apply_reverb(&mut mixed, 30, 300_000), Ok(()));
    let left: Vec<i64> = mixed.iter().map(|f| f.0).collect();
    assert_eq!(left, [700_000, 0, 300_000, 0, 210_000, -350_000, 147_000, -150_000]);
    assert!(mixed.iter().all(|f| f.1 == -f.0));

    let mut same = dry.clone();
    assert_eq!(apply_reverb(&mut same, 30, 0), Ok(()));
    assert_eq!(same, dry);

    let mut wet = dry.clone();
    assert_eq!(apply_reverb(&mut wet, 30, 1_000_000), Ok(()));
    let left: Vec<i64> = wet.iter().map(|f| f.0).collect();
    assert_eq!(left, [0, 0, 1_000_000, 0, 700_000, 0, 490_000, -500_000]);
}

#[test]
fn the_reverb_leaves_silence_silent() {
    for len in [0usize, 1, 5, 5000] {
        let mut silence = vec![(0i64, 0i64); len];
        assert_eq!(apply_reverb(&mut silence, 44100, 300_000), Ok(()));
        assert_eq!(silence, vec![(0, 0); len]);
    }
}

#[test]
fn the_reverb_refuses_a_delay_line_without_slots() {
    let mut frames = vec![(5i64, -5i64); 3];
    assert_eq!(apply_reverb(&mut frames, 9, 300_000), Err(Error::ArithmeticDegeneracy));
    assert_eq!(frames, vec![(5, -5); 3]);
    let mut none: Vec<(i64, i64)> = vec![];
    assert_eq!(apply_reverb(&mut none, 0, 0), Err(Error::ArithmeticDegeneracy));
}

#[test]
fn sixteen_bits_come_back_within_one_step() {
    assert_eq!(quantize(1_000_000), 32767);
    assert_eq!(quantize(-1_000_000), -32767);
    assert_eq!(quantize(500_000), 16383);
    assert_eq!(quantize(30), 0);
    assert_eq!(quantize(31), 1);
    assert_eq!(quantize(-31), -1);
    assert_eq!(quantize(2_000_000), 32767);
    assert_eq!(quantize(-2_000_000), -32768);
    assert_eq!(quantize(i64::MAX), 32767);
    assert_eq!(quantize(i64::MIN), -32768);
    assert_eq!(dequantize(32767), 1_000_000);
    assert_eq!(dequantize(16383), 499_984);
    assert_eq!(dequantize(-32768), -1_000_030);
    for value in (-1_000_000i64..=1_000_000).step_by(13) {
        let back = dequantize(quantize(value));
        assert!((back - value).abs() <= 31);
        assert!(back.abs() <= value.abs());
    }
    for level in i16::MIN..=i16::MAX {
        let value = dequantize(level);
        assert!((value as f64 / 1e6 - level as f64 / 32767.0).abs() < 1e-6);
        assert!((quantize(value) - level).abs() <= 1);
    }
    let as_float = quantize(123_456) as f64 / 32767.0;
    assert!((as_float - 0.123456).abs() < 1.0 / 32767.0);
}

#[test]
fn frames_are_interleaved_left_first() {
    let frames = vec![(1_000_000, -1_000_000), (0, 500_000), (123_456, 31)];
    assert_eq!(frames_to_pcm(&frames), [32767, -32767, 0, 16383, 4045, 1]);
    assert!(frames_to_pcm(&vec![]).is_empty());
}

#[test]
fn fixed_point_products_round_toward_zero() {
    assert_eq!(mul_fixed(1_500_000, 2_000_000), 3_000_000);
    assert_eq!(mul_fixed(1, 999_999), 0);
    assert_eq!(mul_fixed(-1, 999_999), 0);
    assert_eq!(mul_fixed(-3, 500_000), -1);
    assert_eq!(mul_fixed(i64::MAX, 1_000_000), i64::MAX);
    assert_eq!(div_toward_zero(-7, 2), -3);
    assert_eq!(div_toward_zero(7, 2), 3);
    assert_eq!(div_floor(-7, 2), -4);
    assert_eq!(div_floor(-8, 2), -4);
    assert_eq!(div_floor(7, 2), 3);
    assert_eq!(rem_floor(-7, 2), 1);
    assert_eq!(rem_floor(-8, 2), 0);
    assert_eq!(rem_floor(i128::MIN, 1_000_000), i128::MIN.rem_euclid(1_000_000));
    assert_eq!(div_floor(i128::MIN, 1), i128::MIN);
}

#[test]
fn numbers_are_read_in_millionths() {
    let read = |text: &str| parse_decimal(text.as_bytes(), 0, text.len());
    assert_eq!(read("0.1"), Some(100_000));
    assert_eq!(read("330"), Some(330_000_000));
    assert_eq!(read("-0.005"), Some(-5_000));
    assert_eq!(read("+2.5"), Some(2_500_000));
    assert_eq!(read(".5"), Some(500_000));
    assert_eq!(read("5."), Some(5_000_000));
    assert_eq!(read("0.1234567"), Some(123_456));
    assert_eq!(read("0.0000009"), Some(0));
    assert_eq!(read("007"), Some(7_000_000));
    assert_eq!(read("9223372036854.775807"), Some(i64::MAX));
    assert_eq!(read("-9223372036854.775807"), Some(-i64::MAX));
    assert_eq!(read("9223372036854.775808"), None);
    assert_eq!(read("9223372036855"), None);
    assert_eq!(read("99999999999999999999999999999999"), None);
    for bad in ["", ".", "+", "-", "+.", "1e3", "inf", "NaN", " 1", "1 ", "1.2.3", "--1", "0x10", "1,5", "½"] {
        assert_eq!(read(bad), None, "{:?}", bad);
    }
    assert_eq!(parse_decimal(b"ab12.5cd", 2, 6), Some(12_500_000));
    assert_eq!(parse_decimal(b"ab12.5cd", 2, 2), None);
}

#[test]
fn ranges_fall_back_to_their_defaults() {
    assert_eq!(parse_range("0.05:0.2", 1, 2), (50_000, 200_000));
    assert_eq!(parse_range("0.5:1.0", 1, 2), (500_000, 1_000_000));
    assert_eq!(parse_range(":", 1, 2), (1, 2));
    assert_eq!(parse_range("3:", 1, 2), (3_000_000, 2));
    assert_eq!(parse_range(":4", 1, 2), (1, 4_000_000));
    assert_eq!(parse_range("3:4:5", 1, 2), (3_000_000, 4_000_000));
    assert_eq!(parse_range("3:x:5", 1, 2), (3_000_000, 2));
    assert_eq!(parse_range("x:4", 1, 2), (1, 4_000_000));
    assert_eq!(parse_range("-1:-0.5", 1, 2), (-1_000_000, -500_000));
    assert_eq!(parse_range("0.2:0.1", 1, 2), (200_000, 100_000));
    assert_eq!(parse_range("é:1", 1, 2), (1, 1_000_000));
}

#[test]
fn draws_stay_in_their_span_and_vary() {
    let mut rng = StdRng::seed_from_u64(11);
    let mut seen = std::collections::BTreeSet::new();
    for _ in 0..500 {
        let x = uniform(&mut rng, -3, 1000);
        assert!((-3..1000).contains(&x));
        seen.insert(x);
        let n = unit_noise(&mut rng);
        assert!((-1_000_000..1_000_000).contains(&n));
    }
    assert!(seen.len() > 100);
    assert_eq!(uniform(&mut rng, 5, 5), 5);
    assert_eq!(uniform(&mut rng, 5, 4), 5);
    assert_eq!(uniform(&mut rng, i64::MAX - 1, i64::MAX), i64::MAX - 1);
    let wide = uniform(&mut rng, i64::MIN, i64::MAX);
    assert!(wide < i64::MAX);
}

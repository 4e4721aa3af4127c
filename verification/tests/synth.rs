use procsynth::config::{JsonConfig, SampleFormat, CLI};
use procsynth::error::Error;
use procsynth::filename::{filename_with_id, generate_filename, replace_spaces, OutputType};
use procsynth::generator::{Generator, NoiseDraws};
use procsynth::noise::{base_noise_of, filter_noise_of, grain_noise_of};
use procsynth::params::GeneratorParams;
use procsynth::voice::Voice;
use rand::rngs::StdRng;
use rand::SeedableRng;

fn cli() -> CLI {
    CLI {
        config: None,
        output: Some("test.wav".to_string()),
        duration: 30_000_000,
        sample_rate: 48000,
        voices: 6,
        base_freq: 440_000_000,
        lfo_rate_range: "0.1:0.3".to_string(),
        noise_level: 10_000,
        mod_depth_range: "0.3:0.8".to_string(),
        attack: 3_000_000,
        release: 5_000_000,
        reverb_mix: 400_000,
    }
}

fn params() -> GeneratorParams {
    GeneratorParams {
        filename: "test.wav".to_string(),
        sample_rate: 44100,
        duration: 20_000_000,
        lfo_range: (50_000, 200_000),
        mod_depth_range: (500_000, 1_000_000),
        voices: 4,
        base_freq: 330_000_000,
        noise_level: 5_000,
        attack: 5_000_000,
        release: 10_000_000,
        reverb_mix: 300_000,
    }
}

fn generator_for_envelope() -> Generator {
    let mut rng = StdRng::seed_from_u64(1);
    Generator::new(params(), &mut rng).unwrap()
}

fn two_voices() -> Vec<Voice> {
    vec![
        Voice { freq: 440_000_000, lfo_rate: 100_000, mod_depth: 500_000, pan_rate: 20_000 },
        Voice { freq: 330_000_000, lfo_rate: 200_000, mod_depth: 1_000_000, pan_rate: 50_000 },
    ]
}

#[test]
fn test_output_type_as_str() {
    assert_eq!(OutputType::MIDI.as_str(), "midi");
    assert_eq!(OutputType::WAV.as_str(), "wav");
}

#[test]
fn test_generate_filename_helper() {
    let filename = generate_filename("test ambient", OutputType::WAV);
    assert!(filename.contains("test_ambient"));
    assert!(filename.ends_with(".wav"));
    assert!(filename.len() > 20);
}

#[test]
fn test_generator_params_conversion() {
    let cli = cli();
    let params = cli.to_params();

    assert_eq!(params.filename, "test.wav");
    assert_eq!(params.duration, 30_000_000);
    assert_eq!(params.sample_rate, 48000);
    assert_eq!(params.voices, 6);
    assert_eq!(params.base_freq, 440_000_000);
    assert_eq!(params.lfo_range, Generator::parse_range(&"0.1:0.3".to_string(), 0, 0));
    assert_eq!(params.lfo_range, (100_000, 300_000));
    assert_eq!(params.noise_level, 10_000);
    assert_eq!(params.mod_depth_range, Generator::parse_range(&"0.3:0.8".to_string(), 0, 0));
    assert_eq!(params.mod_depth_range, (300_000, 800_000));
    assert_eq!(params.attack, 3_000_000);
    assert_eq!(params.release, 5_000_000);
    assert_eq!(params.reverb_mix, 400_000);
}

#[test]
fn test_generator_params_num_samples() {
    assert_eq!(params().num_samples(), 882000);
}

#[test]
fn test_generator_parse_range() {
    assert_eq!(
        Generator::parse_range(&"0.1:0.3".to_string(), 0, 1_000_000),
        (100_000, 300_000)
    );
    assert_eq!(
        Generator::parse_range(&"0.5".to_string(), 0, 1_000_000),
        (500_000, 1_000_000)
    );
    assert_eq!(
        Generator::parse_range(&"invalid".to_string(), 200_000, 800_000),
        (200_000, 800_000)
    );
    assert_eq!(
        Generator::parse_range(&"".to_string(), 200_000, 800_000),
        (200_000, 800_000)
    );
}

#[test]
fn test_generator_spec() {
    let spec = Generator::spec(44100);
    assert_eq!(spec.channels, 2);
    assert_eq!(spec.sample_rate, 44100);
    assert_eq!(spec.bits_per_sample, 16);
    assert_eq!(spec.sample_format, SampleFormat::Int);
}

#[test]
fn test_voice_synthesis() {
    let voice =
        Voice { freq: 440_000_000, lfo_rate: 100_000, mod_depth: 500_000, pan_rate: 20_000 };

    let (left, right) = voice.synthesize(0);
    // At time zero every oscillator is at phase zero.
    assert!((left - 0).abs() < 1);
    assert!((right - 0).abs() < 1);

    // A quarter period of 440 hertz later the tone is at its peak.
    let (left, right) = voice.synthesize(1_000_000 / (4 * 440));

    assert!(left.abs() > 0 || right.abs() > 0);
    assert_eq!((left, right), (125_035, 125_052));
}

#[test]
fn test_generator_envelope_attack_phase() {
    let generator = generator_for_envelope();
    assert_eq!(generator.envelope(0), 0);
    assert_eq!(generator.envelope(2_500_000), 500_000);
    assert_eq!(generator.envelope(5_000_000), 1_000_000);
}

#[test]
fn test_generator_envelope_sustain_phase() {
    let generator = generator_for_envelope();
    assert_eq!(generator.envelope(10_000_000), 1_000_000);
}

#[test]
fn test_generator_envelope_release_phase() {
    let generator = generator_for_envelope();

    // The piece lasts 20 seconds and the release 10, so it starts at 10.
    assert_eq!(generator.envelope(10_000_000), 1_000_000);
    assert_eq!(generator.envelope(15_000_000), 500_000);
    assert_eq!(generator.envelope(20_000_000), 0);
}

#[test]
fn test_generator_envelope_beyond_duration() {
    let generator = generator_for_envelope();
    assert_eq!(generator.envelope(25_000_000), 0);
}

#[test]
fn test_generator_burst_env_oscillation() {
    assert!((Generator::burst_env(0) - 500_000).abs() < 1);
    let mut values = vec![];
    for i in 0..100 {
        let t = i as u64 * 10_000;
        values.push(Generator::burst_env(t));
    }

    let min_val = values.iter().fold(i64::MAX, |a, &b| a.min(b));
    let max_val = values.iter().fold(i64::MIN, |a, &b| a.max(b));

    assert!(min_val >= 0);
    assert!(max_val <= 1_000_000);
}

#[test]
fn test_generator_mutate() {
    let mut left = 100_000;
    let mut right = 200_000;
    let value = 50_000;

    let (new_left, new_right) = Generator::mutate(&mut left, &mut right, &value);

    assert_eq!(new_left, 150_000);
    assert_eq!(new_right, 250_000);
    assert_eq!(left, 150_000);
    assert_eq!(right, 250_000);
}

#[test]
fn test_generator_creation() {
    let mut rng = StdRng::seed_from_u64(2);
    let generator = Generator::new(params(), &mut rng).unwrap();

    assert_eq!(generator.voices().len(), 4);
    assert_eq!(generator.num_samples(), 882000);
    assert!(generator.samples().is_empty());
}

#[test]
fn test_json_config_conversion() {
    let config = JsonConfig {
        output: Some("test_json.wav".to_string()),
        duration: 45_000_000,
        sample_rate: 48000,
        voices: 8,
        base_freq: 440_000_000,
        lfo_rate_range: [100_000, 300_000],
        noise_level: 20_000,
        mod_depth_range: [300_000, 800_000],
        attack: 3_000_000,
        release: 5_000_000,
        reverb_mix: 400_000,
    };

    let params = config.to_params();

    assert_eq!(params.filename, "test_json.wav");
    assert_eq!(params.duration, 45_000_000);
    assert_eq!(params.sample_rate, 48000);
    assert_eq!(params.voices, 8);
    assert_eq!(params.base_freq, 440_000_000);
    assert_eq!(params.lfo_range, Generator::parse_range(&"0.1:0.3".to_string(), 0, 0));
    assert_eq!(params.noise_level, 20_000);
    assert_eq!(params.mod_depth_range, Generator::parse_range(&"0.3:0.8".to_string(), 0, 0));
    assert_eq!(params.attack, 3_000_000);
    assert_eq!(params.release, 5_000_000);
    assert_eq!(params.reverb_mix, 400_000);
}

#[test]
fn test_default_json_conf() {
    let default_config = JsonConfig::default();
    assert_eq!(default_config.duration, 60_000_000);
    assert_eq!(default_config.sample_rate, 44100);
    assert_eq!(default_config.voices, 4);
    assert_eq!(default_config.base_freq, 330_000_000);
    assert_eq!(default_config.lfo_rate_range, [50_000, 200_000]);
    assert_eq!(default_config.noise_level, 5_000);
    assert_eq!(default_config.mod_depth_range, [500_000, 1_000_000]);
    assert_eq!(default_config.attack, 5_000_000);
    assert_eq!(default_config.release, 10_000_000);
    assert_eq!(default_config.reverb_mix, 300_000);
    assert!(default_config.output.is_none());
}

#[test]
fn a_configuration_without_a_name_gets_a_made_up_one() {
    let params = JsonConfig::default().to_params();
    assert_eq!(params.filename.len(), 36 + "_ambient.wav".len());
    assert!(params.filename.ends_with("_ambient.wav"));
    assert!(params.validate().is_ok());
    let mut flags = cli();
    flags.output = None;
    flags.lfo_rate_range = "fast".to_string();
    flags.mod_depth_range = ":0.75".to_string();
    let params = flags.to_params();
    assert!(params.filename.ends_with("_ambient.wav"));
    assert_eq!(params.lfo_range, (50_000, 200_000));
    assert_eq!(params.mod_depth_range, (500_000, 750_000));
}

#[test]
fn file_names_are_built_from_identifier_stem_and_extension() {
    assert_eq!(filename_with_id("id", "Test Ambient", OutputType::WAV), "id_test_ambient.wav");
    assert_eq!(filename_with_id("0f", "  A b ", OutputType::MIDI), "0f___a_b_.midi");
    assert_eq!(replace_spaces("a b  c"), "a_b__c");
    assert_eq!(replace_spaces(""), "");
}

#[test]
fn identifiers_are_hyphenated_and_fresh() {
    let first = generate_filename("x", OutputType::WAV);
    let second = generate_filename("x", OutputType::WAV);
    assert_ne!(first, second);
    let id: Vec<char> = first.chars().take(36).collect();
    for (i, c) in id.iter().enumerate() {
        if i == 8 || i == 13 || i == 18 || i == 23 {
            assert_eq!(*c, '-');
        } else {
            assert!(c.is_ascii_digit() || ('a'..='f').contains(c));
        }
    }
    assert_eq!(&first[36..], "_x.wav");
}

#[test]
fn setup_refuses_each_invalid_parameter() {
    let mut rng = StdRng::seed_from_u64(3);
    let cases: Vec<fn(&mut GeneratorParams)> = vec![
        |p| p.sample_rate = 0,
        |p| p.duration = 0,
        |p| p.duration = -1,
        |p| p.duration = 100_000_000_000,
        |p| p.voices = 0,
        |p| p.voices = 1_000_001,
        |p| p.base_freq = 0,
        |p| p.base_freq = 1_000_000_000_000_000_001,
        |p| p.lfo_range = (-1, 5),
        |p| p.lfo_range = (6, 5),
        |p| p.mod_depth_range = (-1, 5),
        |p| p.mod_depth_range = (6, 5),
        |p| p.mod_depth_range = (0, 1_000_001),
        |p| p.noise_level = -1,
        |p| p.noise_level = 1_000_001,
        |p| p.attack = -1,
        |p| p.attack = 20_000_001,
        |p| p.release = -1,
        |p| p.release = 20_000_001,
        |p| p.reverb_mix = -1,
        |p| p.reverb_mix = 1_000_001,
    ];
    for spoil in cases {
        let mut p = params();
        spoil(&mut p);
        assert_eq!(p.validate(), Err(Error::InvalidParameter));
        assert!(matches!(Generator::new(p, &mut rng), Err(Error::InvalidParameter)));
    }
    assert_eq!(params().validate(), Ok(()));
    let mut edge = params();
    edge.lfo_range = (7, 7);
    edge.mod_depth_range = (1_000_000, 1_000_000);
    edge.attack = 20_000_000;
    edge.release = 20_000_000;
    edge.noise_level = 0;
    edge.reverb_mix = 1_000_000;
    let generator = Generator::new(edge, &mut rng).unwrap();
    for voice in generator.voices() {
        assert_eq!(voice.lfo_rate, 7);
        assert_eq!(voice.mod_depth, 1_000_000);
    }
}

#[test]
fn drawn_voices_stay_in_their_ranges_and_vary() {
    let mut rng = StdRng::seed_from_u64(4);
    let mut p = params();
    p.voices = 200;
    let generator = Generator::new(p, &mut rng).unwrap();
    let voices = generator.voices();
    assert_eq!(voices.len(), 200);
    for v in voices {
        assert!(v.freq >= 264_000_000 && v.freq < 396_000_000);
        assert!(v.lfo_rate >= 50_000 && v.lfo_rate < 200_000);
        assert!(v.mod_depth >= 500_000 && v.mod_depth < 1_000_000);
        assert!(v.pan_rate >= 10_000 && v.pan_rate < 50_000);
    }
    assert!(voices.iter().any(|v| v.freq != voices[0].freq));
    assert!(voices.iter().any(|v| v.lfo_rate != 50_000));
    assert!(voices.iter().any(|v| v.pan_rate != 10_000));
}

#[test]
fn the_bank_can_be_chosen_by_the_caller() {
    let mut p = params();
    p.voices = 2;
    let generator = Generator::with_voices(p, two_voices()).unwrap();
    assert_eq!(generator.voices(), &two_voices());
    assert_eq!(generator.params().voices, 2);
    assert!(matches!(
        Generator::with_voices(params(), two_voices()),
        Err(Error::InvalidParameter)
    ));
    let mut p = params();
    p.voices = 1;
    let deep = vec![Voice { freq: 1, lfo_rate: 1, mod_depth: 1_000_001, pan_rate: 1 }];
    assert!(matches!(Generator::with_voices(p, deep), Err(Error::InvalidParameter)));
}

#[test]
fn a_frame_is_voices_plus_noise_shaped_by_the_envelope() {
    let mut p = params();
    p.voices = 2;
    let mut generator = Generator::with_voices(p, two_voices()).unwrap();
    assert_eq!(generator.sum_voices(2_501_137), (51_407, 299_661));
    let draws = NoiseDraws { base: 400_000, grain: -900_000, filtered: 999_999 };
    let out = generator.frame_with(2_501_137, draws);
    assert_eq!(out, (26_186, 150_370));
    assert_eq!(generator.filter_with(0), (134, 134));
    assert!(generator.samples().is_empty());
}

#[test]
fn the_noise_layers_follow_their_formulas() {
    assert_eq!(base_noise_of(400_000, 5_000), 2_000);
    assert_eq!(base_noise_of(-1_000_000, 1_000_000), -1_000_000);
    // Bursts peak a quarter into each tenth of a second and vanish at three quarters.
    assert_eq!(grain_noise_of(-900_000, 500_000, 25_000), -225_000);
    assert_eq!(grain_noise_of(-900_000, 500_000, 75_000), 0);
    assert_eq!(grain_noise_of(-900_000, 500_000, 0), -112_500);
    assert_eq!(filter_noise_of(0, 1_000, 1_000_000), 30);
    assert_eq!(filter_noise_of(150, 999_999, 500_000), 15_134);
    let mut rng = StdRng::seed_from_u64(5);
    let mut generator = generator_for_envelope();
    let mut seen = std::collections::BTreeSet::new();
    for _ in 0..200 {
        let hiss = generator.noise(&mut rng);
        assert!(hiss.abs() <= 5_000);
        seen.insert(hiss);
        let grain = generator.granular_noise(25_000, &mut rng);
        assert!(grain.abs() <= 2_500);
        let (l, r) = generator.filtered_noise(0, &mut rng);
        assert_eq!(l, r);
        assert!(l.abs() <= 1_500);
    }
    assert!(seen.len() > 50);
}

#[test]
fn a_run_renders_every_frame_and_starts_in_silence() {
    let mut rng = StdRng::seed_from_u64(6);
    let mut p = params();
    p.duration = 250_000;
    p.sample_rate = 8000;
    p.attack = 100_000;
    p.release = 100_000;
    let mut generator = Generator::new(p, &mut rng).unwrap();
    generator.generate(&mut rng);
    assert_eq!(generator.samples().len(), 2000);
    assert_eq!(generator.samples()[0], (0, 0));
    assert!(generator.samples().iter().any(|f| f.0 != 0));
    assert!(generator.samples().iter().all(|f| f.0.abs() <= 4_015_000));
    let dry = generator.samples().clone();
    assert_eq!(generator.apply_reverb(), Ok(()));
    assert_eq!(generator.samples().len(), 2000);
    // The delay line has 400 slots: the first 400 frames only lose the wet share.
    for i in 0..400 {
        assert_eq!(generator.samples()[i].0, dry[i].0 * 700_000 / 1_000_000);
    }
    let pcm = generator.to_pcm();
    assert_eq!(pcm.len(), 4000);
}

#[test]
fn the_same_seed_gives_the_same_piece() {
    let mut p = params();
    p.duration = 100_000;
    p.sample_rate = 4000;
    p.attack = 10_000;
    p.release = 10_000;
    let mut q = params();
    q.duration = 100_000;
    q.sample_rate = 4000;
    q.attack = 10_000;
    q.release = 10_000;
    let first = procsynth::run(p, &mut StdRng::seed_from_u64(9)).unwrap();
    let second = procsynth::run(q, &mut StdRng::seed_from_u64(9)).unwrap();
    assert_eq!(first.len(), 800);
    assert_eq!(first, second);
    assert!(first.iter().any(|s| *s != 0));
}

#[test]
fn a_run_is_refused_before_it_starts() {
    let mut rng = StdRng::seed_from_u64(10);
    let mut p = params();
    p.duration = 0;
    assert_eq!(procsynth::run(p, &mut rng), Err(Error::InvalidParameter));
    let mut p = params();
    p.sample_rate = 9;
    assert_eq!(procsynth::run(p, &mut rng), Err(Error::ArithmeticDegeneracy));
    let mut p = params();
    p.sample_rate = 9;
    let mut generator = Generator::new(p, &mut rng).unwrap();
    assert_eq!(generator.run(&mut rng), Err(Error::ArithmeticDegeneracy));
    assert!(generator.samples().is_empty());
    assert_eq!(Error::InvalidParameter.message(), "Invalid Parameter");
    assert_eq!(Error::ArithmeticDegeneracy.message(), "Arithmetic Degeneracy");
}

#[test]
fn the_twenty_second_piece_has_882000_frames() {
    let mut rng = StdRng::seed_from_u64(12);
    let mut generator = Generator::new(params(), &mut rng).unwrap();
    generator.generate(&mut rng);
    assert_eq!(generator.samples().len(), 882000);
    assert_eq!(generator.samples()[0], (0, 0));
    assert_eq!(generator.apply_reverb(), Ok(()));
    assert_eq!(generator.samples().len(), 882000);
    assert_eq!(generator.to_pcm().len(), 2 * 882000);
}

#[test]
fn the_hiss_is_the_same_in_both_channels() {
    let mut p = params();
    p.voices = 1;
    p.noise_level = 1_000_000;
    let mute = vec![Voice { freq: 440_000_000, lfo_rate: 100_000, mod_depth: 0, pan_rate: 20_000 }];
    let mut generator = Generator::with_voices(p, mute).unwrap();
    let mut rng = StdRng::seed_from_u64(13);
    for i in 0..50u64 {
        let draws = NoiseDraws {
            base: procsynth::random::unit_noise(&mut rng),
            grain: procsynth::random::unit_noise(&mut rng),
            filtered: procsynth::random::unit_noise(&mut rng),
        };
        let (left, right) = generator.frame_with(6_000_000 + 1_000 * i, draws);
        assert_eq!(left, right);
    }
    // With the envelope at one, a frame is the three layers added up.
    let mut p = params();
    p.voices = 1;
    p.noise_level = 500_000;
    let mute = vec![Voice { freq: 440_000_000, lfo_rate: 100_000, mod_depth: 0, pan_rate: 20_000 }];
    let mut generator = Generator::with_voices(p, mute).unwrap();
    let draws = NoiseDraws { base: 400_000, grain: -900_000, filtered: 999_999 };
    assert_eq!(generator.frame_with(6_025_000, draws), (200_000 - 225_000 + 14_999, 200_000 - 225_000 + 14_999));
}

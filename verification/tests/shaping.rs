use std::f32::consts::PI;

use waveforms_rs::{Shaping, WaveformType};

/// `den` times the value of a level or a ramp at `num / den` half-turns.
fn scaled(shaping: Shaping, num: i64, den: i64) -> Option<i64> {
    match shaping {
        Shaping::Level { value } => Some(i64::from(value) * den),
        Shaping::Ramp { start, rise } => Some(i64::from(start) * den + i64::from(rise) * num),
        Shaping::Sinusoid | Shaping::Random => None,
    }
}

/// `den` times the raw sample of a waveform at `num / den` half-turns.
fn scaled_sample(kind: WaveformType, num: i64, den: i64) -> Option<i64> {
    scaled(kind.shaping(num < den), num, den)
}

/// A level or a ramp evaluated in single precision at a phase in radians.
fn evaluate(shaping: Shaping, phase: f32) -> f32 {
    match shaping {
        Shaping::Level { value } => f32::from(value),
        Shaping::Ramp { start, rise } => f32::from(start) + (f32::from(rise) * phase / PI),
        Shaping::Sinusoid | Shaping::Random => panic!("not a linear shaping"),
    }
}

#[test]
fn sine_is_a_sinusoid_in_both_halves() {
    assert_eq!(WaveformType::Sine.shaping(true), Shaping::Sinusoid);
    assert_eq!(WaveformType::Sine.shaping(false), Shaping::Sinusoid);
}

#[test]
fn square_is_high_then_low() {
    assert_eq!(WaveformType::Square.shaping(true), Shaping::Level { value: 1 });
    assert_eq!(WaveformType::Square.shaping(false), Shaping::Level { value: -1 });
}

#[test]
fn triangle_rises_then_falls() {
    assert_eq!(
        WaveformType::Triangle.shaping(true),
        Shaping::Ramp { start: -1, rise: 2 }
    );
    assert_eq!(
        WaveformType::Triangle.shaping(false),
        Shaping::Ramp { start: 3, rise: -2 }
    );
}

#[test]
fn sawtooth_is_one_ramp_over_the_cycle() {
    assert_eq!(
        WaveformType::Sawtooth.shaping(true),
        Shaping::Ramp { start: -1, rise: 1 }
    );
    assert_eq!(
        WaveformType::Sawtooth.shaping(false),
        Shaping::Ramp { start: -1, rise: 1 }
    );
}

#[test]
fn noise_is_random_in_both_halves() {
    assert_eq!(WaveformType::Noise.shaping(true), Shaping::Random);
    assert_eq!(WaveformType::Noise.shaping(false), Shaping::Random);
}

#[test]
fn only_noise_is_random() {
    for value in 0u8..=4 {
        let kind = WaveformType::try_from(value).unwrap();
        for first_half in [true, false] {
            assert_eq!(
                kind.shaping(first_half) == Shaping::Random,
                kind == WaveformType::Noise
            );
        }
    }
}

#[test]
fn the_half_matters_to_square_and_triangle_only() {
    for value in 0u8..=4 {
        let kind = WaveformType::try_from(value).unwrap();
        assert_eq!(
            kind.shaping(true) != kind.shaping(false),
            kind == WaveformType::Square || kind == WaveformType::Triangle
        );
    }
}

#[test]
fn square_at_the_start_and_at_half_a_cycle() {
    assert_eq!(scaled_sample(WaveformType::Square, 0, 1), Some(1));
    assert_eq!(scaled_sample(WaveformType::Square, 1, 1), Some(-1));
    assert_eq!(scaled_sample(WaveformType::Square, 3, 2), Some(-2));
}

#[test]
fn triangle_at_the_quarters_of_a_cycle() {
    // Phases 0, pi/2, pi and 3*pi/2, in halves of a half-turn.
    assert_eq!(scaled_sample(WaveformType::Triangle, 0, 2), Some(-2));
    assert_eq!(scaled_sample(WaveformType::Triangle, 1, 2), Some(0));
    assert_eq!(scaled_sample(WaveformType::Triangle, 2, 2), Some(2));
    assert_eq!(scaled_sample(WaveformType::Triangle, 3, 2), Some(0));
}

#[test]
fn triangle_halves_meet_without_a_jump() {
    let rising = WaveformType::Triangle.shaping(true);
    let falling = WaveformType::Triangle.shaping(false);
    assert_eq!(scaled(rising, 7, 7), scaled(falling, 7, 7));
    assert_eq!(scaled(falling, 14, 7), scaled(rising, 0, 7));
}

#[test]
fn sawtooth_at_the_quarters_of_a_cycle() {
    assert_eq!(scaled_sample(WaveformType::Sawtooth, 0, 2), Some(-2));
    assert_eq!(scaled_sample(WaveformType::Sawtooth, 1, 2), Some(-1));
    assert_eq!(scaled_sample(WaveformType::Sawtooth, 2, 2), Some(0));
    assert_eq!(scaled_sample(WaveformType::Sawtooth, 3, 2), Some(1));
}

#[test]
fn exact_samples_stay_in_the_nominal_range() {
    let den = 16;
    for kind in [
        WaveformType::Square,
        WaveformType::Triangle,
        WaveformType::Sawtooth,
    ] {
        for num in 0..2 * den {
            let value = scaled_sample(kind, num, den).unwrap();
            assert!(-den <= value && value <= den);
        }
    }
}

#[test]
fn sine_and_noise_have_no_exact_sample() {
    assert_eq!(scaled_sample(WaveformType::Sine, 1, 2), None);
    assert_eq!(scaled_sample(WaveformType::Noise, 1, 2), None);
}

#[test]
fn ramps_in_single_precision_follow_the_closed_formulas() {
    let steps = 64;
    for step in 0..steps {
        let phase = 2.0 * PI * (step as f32) / (steps as f32);
        let first_half = phase < PI;

        let square = if first_half { 1.0 } else { -1.0 };
        assert_eq!(evaluate(WaveformType::Square.shaping(first_half), phase), square);

        let triangle = if first_half {
            -1.0 + (2.0 * phase / PI)
        } else {
            3.0 - (2.0 * phase / PI)
        };
        assert_eq!(
            evaluate(WaveformType::Triangle.shaping(first_half), phase),
            triangle
        );

        let sawtooth = -1.0 + (2.0 * phase / (2.0 * PI));
        assert_eq!(
            evaluate(WaveformType::Sawtooth.shaping(first_half), phase),
            sawtooth
        );
    }
}

#[test]
fn shapes_at_phase_zero_in_single_precision() {
    assert_eq!(evaluate(WaveformType::Square.shaping(true), 0.0), 1.0);
    assert_eq!(evaluate(WaveformType::Triangle.shaping(true), 0.0), -1.0);
    assert_eq!(evaluate(WaveformType::Sawtooth.shaping(true), 0.0), -1.0);
}

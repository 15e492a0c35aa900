//! How a waveform shapes one sample from the phase, described exactly.
//!
//! An oscillator evaluates its shape in floating point. The description kept
//! here is the exact one behind that evaluation: every shape other than the
//! sine and the noise is a constant or a straight line over each half of the
//! cycle, with small integer coefficients, so its value at a rational phase
//! is a rational number that can be reasoned about without rounding.

use vstd::prelude::*;

use crate::waveform_type::WaveformType;

verus! {

/// What a waveform contributes to a sample, before gain and offset, as a
/// function of a phase in `[0, 2*pi)`.
#[derive(Debug, Clone, Copy, PartialEq, Eq, Structural)]
pub enum Shaping {
    /// The sine of the phase.
    Sinusoid,
    /// The constant `value`.
    Level { value: i8 },
    /// The line `start + rise * phase / pi`.
    Ramp { start: i8, rise: i8 },
    /// A fresh uniform draw from `[-1, 1)`, whatever the phase.
    Random,
}

impl Shaping {
    /// `den` times the value of the shape at a phase of `num / den`
    /// half-turns, that is at `num * pi / den`. A level and a ramp have such
    /// a value; the sine is not rational in the phase and the noise is no
    /// function of it, so they have none.
    pub open spec fn scaled_value(self, num: int, den: int) -> Option<int> {
        match self {
            Shaping::Level { value } => Some(value * den),
            Shaping::Ramp { start, rise } => Some(start * den + rise * num),
            Shaping::Sinusoid => None,
            Shaping::Random => None,
        }
    }
}

/// `den` times the raw sample of a waveform at a phase of `num / den`
/// half-turns, where the waveform has an exact one: the shaping of the half
/// of the cycle that the phase lies in, evaluated at that phase.
pub open spec fn scaled_sample(kind: WaveformType, num: int, den: int) -> Option<int> {
    kind.shaping_spec(num < den).scaled_value(num, den)
}

/// The exact value of each linear shaping, with the products of its
/// coefficients written out.
proof fn lemma_scaled_values(num: int, den: int)
    ensures
        WaveformType::Square.shaping_spec(true).scaled_value(num, den) == Some(den),
        WaveformType::Square.shaping_spec(false).scaled_value(num, den) == Some(-den),
        WaveformType::Triangle.shaping_spec(true).scaled_value(num, den) == Some(2 * num - den),
        WaveformType::Triangle.shaping_spec(false).scaled_value(num, den) == Some(
            3 * den - 2 * num,
        ),
        WaveformType::Sawtooth.shaping_spec(true).scaled_value(num, den) == Some(num - den),
        WaveformType::Sawtooth.shaping_spec(false).scaled_value(num, den) == Some(num - den),
{
}

/// Noise is the only waveform that draws its samples at random: every other
/// one is a function of the phase alone.
pub proof fn lemma_only_noise_is_random(kind: WaveformType, first_half: bool)
    ensures
        kind.shaping_spec(first_half) is Random <==> kind is Noise,
{
}

/// Which half of the cycle the phase lies in matters to the square and the
/// triangle wave only.
pub proof fn lemma_half_matters_to_square_and_triangle_only(kind: WaveformType)
    ensures
        kind.shaping_spec(true) != kind.shaping_spec(false) <==> kind is Square || kind is Triangle,
{
}

/// Square, triangle and sawtooth are the waveforms with an exact raw sample
/// at every rational phase.
pub proof fn lemma_exact_waveforms(kind: WaveformType, num: int, den: int)
    ensures
        scaled_sample(kind, num, den) is Some <==> kind is Square || kind is Triangle
            || kind is Sawtooth,
{
}

/// The square wave is `+1` below `pi` and `-1` from `pi` on.
pub proof fn lemma_square_levels(num: int, den: int)
    ensures
        num < den ==> scaled_sample(WaveformType::Square, num, den) == Some(den),
        num >= den ==> scaled_sample(WaveformType::Square, num, den) == Some(-den),
{
    lemma_scaled_values(num, den);
}

/// The triangle wave is `-1 + 2 * phase / pi` below `pi` and
/// `3 - 2 * phase / pi` from `pi` on. It starts the cycle at `-1` and
/// reaches its peak `+1` at `pi`; neither half jumps where it meets the
/// other: the rising line ends at `+1` and the falling line ends at `-1`.
pub proof fn lemma_triangle_ramps(num: int, den: int)
    requires
        den > 0,
    ensures
        num < den ==> scaled_sample(WaveformType::Triangle, num, den) == Some(2 * num - den),
        num >= den ==> scaled_sample(WaveformType::Triangle, num, den) == Some(3 * den - 2 * num),
        scaled_sample(WaveformType::Triangle, 0, den) == Some(-den),
        scaled_sample(WaveformType::Triangle, den, den) == Some(den),
        WaveformType::Triangle.shaping_spec(true).scaled_value(den, den) == Some(den),
        WaveformType::Triangle.shaping_spec(false).scaled_value(2 * den, den) == Some(-den),
{
    lemma_scaled_values(num, den);
    lemma_scaled_values(0, den);
    lemma_scaled_values(den, den);
    lemma_scaled_values(2 * den, den);
}

/// The sawtooth wave is `-1 + phase / pi` over the whole cycle: it starts at
/// `-1`, crosses zero at `pi` and stays below `+1`.
pub proof fn lemma_sawtooth_ramp(num: int, den: int)
    requires
        den > 0,
        0 <= num < 2 * den,
    ensures
        scaled_sample(WaveformType::Sawtooth, num, den) == Some(num - den),
        -den <= num - den < den,
        scaled_sample(WaveformType::Sawtooth, 0, den) == Some(-den),
        scaled_sample(WaveformType::Sawtooth, den, den) == Some(0int),
{
    lemma_scaled_values(num, den);
    lemma_scaled_values(0, den);
    lemma_scaled_values(den, den);
}

/// Within one cycle, the raw sample of a square, triangle or sawtooth wave
/// lies in the nominal range `[-1, 1]`.
pub proof fn lemma_exact_sample_in_nominal_range(kind: WaveformType, num: int, den: int)
    requires
        den > 0,
        0 <= num < 2 * den,
    ensures
        scaled_sample(kind, num, den) matches Some(value) ==> (-den <= value && value <= den),
{
    lemma_square_levels(num, den);
    lemma_triangle_ramps(num, den);
    lemma_sawtooth_ramp(num, den);
}

} // verus!

//! The waveform variants an oscillator can produce.

use vstd::prelude::*;
use vstd::std_specs::convert::TryFromSpecImpl;

use crate::shaping::Shaping;

verus! {

/// The shape of one oscillation cycle.
#[derive(Debug, Clone, Copy, PartialEq, Eq, Structural)]
pub enum WaveformType {
    Sine,
    Square,
    Triangle,
    Sawtooth,
    Noise,
}

impl WaveformType {
    /// The variant that an integer discriminant stands for; values above 4
    /// stand for none.
    pub open spec fn from_discriminant(value: u8) -> Result<WaveformType, ()> {
        match value {
            0 => Ok(WaveformType::Sine),
            1 => Ok(WaveformType::Square),
            2 => Ok(WaveformType::Triangle),
            3 => Ok(WaveformType::Sawtooth),
            4 => Ok(WaveformType::Noise),
            _ => Err(()),
        }
    }

    /// The discriminant that stands for the variant.
    pub open spec fn discriminant(self) -> u8 {
        match self {
            WaveformType::Sine => 0,
            WaveformType::Square => 1,
            WaveformType::Triangle => 2,
            WaveformType::Sawtooth => 3,
            WaveformType::Noise => 4,
        }
    }

    /// The human-readable name of the variant, as a sequence of characters.
    pub open spec fn name_spec(self) -> Seq<char> {
        match self {
            WaveformType::Sine => "Sine"@,
            WaveformType::Square => "Square"@,
            WaveformType::Triangle => "Triangle"@,
            WaveformType::Sawtooth => "Sawtooth"@,
            WaveformType::Noise => "Noise"@,
        }
    }

    /// The human-readable name of the variant.
    pub fn name(&self) -> (name: String)
        ensures
            name@ == self.name_spec(),
    {
        match self {
            WaveformType::Sine => "Sine".to_owned(),
            WaveformType::Square => "Square".to_owned(),
            WaveformType::Triangle => "Triangle".to_owned(),
            WaveformType::Sawtooth => "Sawtooth".to_owned(),
            WaveformType::Noise => "Noise".to_owned(),
        }
    }

    /// The shaping in force during one half of the cycle: `first_half` says
    /// whether the phase is below `pi`.
    ///
    /// A square wave is `+1` over the first half and `-1` over the second. A
    /// triangle wave climbs from `-1` to `+1` over the first half and falls
    /// back over the second. A sawtooth climbs from `-1` towards `+1` over
    /// the whole cycle. Sine and noise have no linear description.
    pub open spec fn shaping_spec(self, first_half: bool) -> Shaping {
        match self {
            WaveformType::Sine => Shaping::Sinusoid,
            WaveformType::Square => if first_half {
                Shaping::Level { value: 1 }
            } else {
                Shaping::Level { value: -1i8 }
            },
            WaveformType::Triangle => if first_half {
                Shaping::Ramp { start: -1i8, rise: 2 }
            } else {
                Shaping::Ramp { start: 3, rise: -2i8 }
            },
            WaveformType::Sawtooth => Shaping::Ramp { start: -1i8, rise: 1 },
            WaveformType::Noise => Shaping::Random,
        }
    }

    /// Selects the shaping of the next sample from the variant and from
    /// whether the phase lies in the first half of the cycle.
    pub fn shaping(&self, first_half: bool) -> (shaping: Shaping)
        ensures
            shaping == self.shaping_spec(first_half),
    {
        match self {
            WaveformType::Sine => Shaping::Sinusoid,
            WaveformType::Square => {
                if first_half {
                    Shaping::Level { value: 1 }
                } else {
                    Shaping::Level { value: -1 }
                }
            },
            WaveformType::Triangle => {
                if first_half {
                    Shaping::Ramp { start: -1, rise: 2 }
                } else {
                    Shaping::Ramp { start: 3, rise: -2 }
                }
            },
            WaveformType::Sawtooth => Shaping::Ramp { start: -1, rise: 1 },
            WaveformType::Noise => Shaping::Random,
        }
    }
}

impl TryFrom<u8> for WaveformType {
    type Error = ();

    /// Converts a discriminant in `0..=4` to its variant and rejects every
    /// other value.
    fn try_from(value: u8) -> (result: Result<WaveformType, ()>)
        ensures
            result == Self::from_discriminant(value),
            result is Ok <==> value <= 4,
    {
        match value {
            0 => Ok(WaveformType::Sine),
            1 => Ok(WaveformType::Square),
            2 => Ok(WaveformType::Triangle),
            3 => Ok(WaveformType::Sawtooth),
            4 => Ok(WaveformType::Noise),
            _ => Err(()),
        }
    }
}

impl TryFromSpecImpl<u8> for WaveformType {
    open spec fn obeys_try_from_spec() -> bool {
        true
    }

    open spec fn try_from_spec(value: u8) -> Result<WaveformType, ()> {
        Self::from_discriminant(value)
    }
}

/// Discriminants and variants correspond one to one: a variant converts back
/// from its own discriminant and from no other, and the discriminants of the
/// variants are exactly the values `0..=4`, every other value being rejected.
pub proof fn lemma_discriminant_round_trip(kind: WaveformType, value: u8)
    ensures
        WaveformType::from_discriminant(kind.discriminant()) == Ok::<WaveformType, ()>(kind),
        WaveformType::from_discriminant(value) == Ok::<WaveformType, ()>(kind) <==> value
            == kind.discriminant(),
        kind.discriminant() <= 4,
        WaveformType::from_discriminant(value) is Err <==> value > 4,
{
}

} // verus!

//! Building blocks of a single-channel periodic signal generator: the
//! waveform variants, the exact description of how each one shapes a sample
//! from the phase, and the seeding of the noise generator.

pub mod noise;
pub mod shaping;
pub mod waveform_type;

pub use shaping::Shaping;
pub use waveform_type::WaveformType;

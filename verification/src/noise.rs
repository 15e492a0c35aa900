//! Seeding of the generator behind the noise waveform.
//!
//! Every oscillator owns a small pseudo-random generator. Its seed is taken,
//! best effort, from the clock: the whole milliseconds of a clock reading,
//! cut to 64 bits, or zero when the clock cannot be read.

use rand::rngs::SmallRng;
use rand::SeedableRng;
use std::time::{Duration, SystemTime, SystemTimeError};
use vstd::prelude::*;

verus! {

/// `rand::rngs::SmallRng`, the generator, carried as an opaque value.
#[verifier::external_type_specification]
#[verifier::external_body]
pub struct ExSmallRng(SmallRng);

/// `std::time::SystemTime`, a clock reading, carried as an opaque value.
#[verifier::external_type_specification]
#[verifier::external_body]
pub struct ExSystemTime(SystemTime);

/// `std::time::SystemTimeError`, the failure of a clock comparison, carried
/// as an opaque value.
#[verifier::external_type_specification]
#[verifier::external_body]
pub struct ExSystemTimeError(SystemTimeError);

/// `SystemTime::now` reads the system clock. Nothing is claimed of the
/// reading.
pub assume_specification[ SystemTime::now ]() -> (now: SystemTime);

/// `SystemTime::elapsed` measures the time from `earlier` to a fresh clock
/// reading, and fails when the clock has gone backwards in between. Nothing
/// is claimed of which of the two happens, nor of the span measured.
pub assume_specification[ SystemTime::elapsed ](earlier: &SystemTime) -> (elapsed: Result<
    Duration,
    SystemTimeError,
>);

/// `Duration::as_millis` gives the whole milliseconds of a span. Nothing is
/// claimed of the number.
pub assume_specification[ Duration::as_millis ](span: &Duration) -> (millis: u128);

/// `SmallRng::seed_from_u64` builds a generator from a 64-bit seed. Nothing
/// is claimed of the generator; which algorithm runs depends on the platform.
#[verifier::external_body]
fn small_rng_from_seed(seed: u64) -> (generator: SmallRng) {
    SmallRng::seed_from_u64(seed)
}

/// The seed that a clock reading stands for: the elapsed milliseconds modulo
/// `2^64`, or zero when there is no reading.
pub open spec fn seed_of(elapsed_millis: Option<u128>) -> u64 {
    match elapsed_millis {
        Some(millis) => (millis % 0x1_0000_0000_0000_0000) as u64,
        None => 0,
    }
}

/// Turns a clock reading, in whole milliseconds, into a seed. A reading that
/// failed is `None` and gives the fixed seed zero.
pub fn seed_from_elapsed(elapsed_millis: Option<u128>) -> (seed: u64)
    ensures
        seed == seed_of(elapsed_millis),
{
    match elapsed_millis {
        Some(millis) => {
            let low: u128 = millis % 0x1_0000_0000_0000_0000;
            low as u64
        },
        None => 0,
    }
}

/// Reads the clock and derives a seed from it: the time that has passed
/// since a reading taken on the spot, handed to `seed_from_elapsed`. The seed
/// depends on the clock, so nothing is promised of its value; a reading that
/// fails gives the seed zero and never makes this fail.
pub fn clock_seed() -> (seed: u64) {
    let reading = match SystemTime::now().elapsed() {
        Ok(span) => Some(span.as_millis()),
        Err(_) => None,
    };
    seed_from_elapsed(reading)
}

/// The generator an oscillator starts with: seeded with `clock_seed`.
pub fn clock_seeded_generator() -> (generator: SmallRng) {
    small_rng_from_seed(clock_seed())
}

} // verus!

//! Identifiers for projects, songs, patterns and generators.
//!
//! An identifier joins 32 bits of randomness, in its high half, with the low
//! 32 bits of the wall clock in microseconds, in its low half. Two identifiers
//! drawn within one microsecond differ only by chance.

use rand::rngs::OsRng;
use rand::rngs::StdRng;
use rand::RngCore;
use rand::SeedableRng;
use std::time::Duration;
use std::time::SystemTime;
use std::time::SystemTimeError;
use vstd::prelude::*;

verus! {

/// `std::time::SystemTime`, a reading of the system clock. Nothing is known
/// of what a value holds.
#[verifier::external_type_specification]
#[verifier::external_body]
pub struct ExSystemTime(SystemTime);

/// `std::time::SystemTimeError`, the error of a clock that stands before the
/// time it is compared with. Nothing is known of what a value holds.
#[verifier::external_type_specification]
#[verifier::external_body]
pub struct ExSystemTimeError(SystemTimeError);

/// `rand::Error`, why the system gave no random bits. Nothing is known of
/// what a value holds.
#[verifier::external_type_specification]
#[verifier::external_body]
pub struct ExRandError(rand::Error);

/// The high 32 bits of `noise`, the low 32 bits cleared.
pub open spec fn noise_part(noise: u64) -> u64 {
    noise & 0xffff_ffff_0000_0000
}

/// The low 32 bits of a count of microseconds.
pub open spec fn clock_part(micros: u128) -> u64 {
    (micros % 0x1_0000_0000) as u64
}

/// The identifier made of the high half of `noise` and the low 32 bits of
/// `micros`.
pub open spec fn mix_id_spec(noise: u64, micros: u128) -> u64 {
    (noise_part(noise) + clock_part(micros)) as u64
}

/// Joins random bits and a clock reading into an identifier: the high 32 bits
/// are those of `noise`, the low 32 bits those of `micros`.
pub fn mix_id(noise: u64, micros: u128) -> (id: u64)
    ensures
        id == mix_id_spec(noise, micros),
        id & 0xffff_ffff_0000_0000 == noise_part(noise),
        id & 0xffff_ffff == clock_part(micros),
{
    let high: u64 = noise & 0xffff_ffff_0000_0000;
    let low: u64 = (micros % 0x1_0000_0000) as u64;
    assert(high <= 0xffff_ffff_0000_0000) by (bit_vector)
        requires
            high == noise & 0xffff_ffff_0000_0000,
    ;
    let id: u64 = high + low;
    assert(id & 0xffff_ffff_0000_0000 == high && id & 0xffff_ffff == low) by (bit_vector)
        requires
            high == noise & 0xffff_ffff_0000_0000,
            low < 0x1_0000_0000,
            id == high + low,
    ;
    id
}

/// `SeedableRng::from_rng` of the rand crate, for a `StdRng` seeded from
/// `OsRng`, and then `next_u64` on that generator: 64 bits from a generator
/// that the system has just seeded, or the error of the system where it gives
/// no seed. Nothing is claimed of the bits.
#[verifier::external_body]
fn random_bits() -> Result<u64, rand::Error> {
    let mut generator = StdRng::from_rng(OsRng)?;
    Ok(generator.next_u64())
}

/// `SystemTime::now`: the reading of the system clock. Nothing is claimed of it.
#[verifier::external_body]
fn clock_now() -> SystemTime {
    SystemTime::now()
}

/// `SystemTime::duration_since`, taken against `UNIX_EPOCH`: the time that has
/// passed since the epoch, or an error where the clock stands before it.
/// Nothing is claimed of either.
#[verifier::external_body]
fn since_epoch(time: &SystemTime) -> Result<Duration, SystemTimeError> {
    time.duration_since(std::time::UNIX_EPOCH)
}

/// `Duration::as_micros`: the whole microseconds in a duration. Nothing is
/// claimed of the count.
#[verifier::external_body]
fn whole_micros(duration: &Duration) -> u128 {
    duration.as_micros()
}

/// Draws a new identifier from the random source of the system and the
/// system clock. A clock that stands before the epoch contributes no bits.
/// Nothing comes back where the system gives no random bits.
pub fn get_id() -> Option<u64> {
    let noise = match random_bits() {
        Ok(noise) => noise,
        Err(_) => {
            return None;
        },
    };
    let now = clock_now();
    let micros: u128 = match since_epoch(&now) {
        Ok(elapsed) => whole_micros(&elapsed),
        Err(_) => 0,
    };
    Some(mix_id(noise, micros))
}

} // verus!

//! Bit-exact reproduction of the block-presence randomness of a voxel world
//! generator, and a search for anchor positions where a pattern of present
//! and absent blocks occurs.
use vstd::prelude::*;

pub mod hash;
pub mod random;
pub mod fraction;
pub mod world;
pub mod search;

verus! {

#[verifier::external_type_specification]
#[verifier::external_body]
pub struct ExSystemTime(std::time::SystemTime);

#[verifier::external_type_specification]
#[verifier::external_body]
pub struct ExSystemTimeError(std::time::SystemTimeError);

/// Relies on `std::time::SystemTime::now`: the clock's current reading.
#[verifier::external_body]
fn clock_now() -> std::time::SystemTime {
    std::time::SystemTime::now()
}

/// Relies on `std::time::SystemTime::duration_since`, measured from the
/// Unix epoch: an error where `t` is earlier.
#[verifier::external_body]
fn since_epoch(t: &std::time::SystemTime) -> Result<std::time::Duration, std::time::SystemTimeError> {
    t.duration_since(std::time::SystemTime::UNIX_EPOCH)
}

/// Relies on `std::time::Duration::as_millis`: whole milliseconds.
#[verifier::external_body]
fn whole_millis(d: &std::time::Duration) -> u128 {
    d.as_millis()
}

/// Milliseconds since the Unix epoch, cut to 64 bits, or 0 where the clock
/// reads earlier than the epoch. Nothing more is known of a clock reading.
pub fn unix_millis() -> u64 {
    let now = clock_now();
    match since_epoch(&now) {
        Ok(d) => whole_millis(&d) as u64,
        Err(_) => 0,
    }
}

} // verus!

//! Chance and the clock: the random numbers and the local hour the pet's
//! behaviour depends on.

use vstd::prelude::*;
use rand::Rng;
use chrono::Timelike;

verus! {

/// A random number in `low..high`, from the thread-local generator.
///
/// Calls `rand::Rng::gen_range` with the range `low..high`, which panics on an
/// empty range (hence `low < high`). The contract claims only that the number
/// lies in the range; which one is left to chance.
#[verifier::external_body]
pub(crate) fn random_in(low: u64, high: u64) -> (r: u64)
    requires
        low < high,
    ensures
        low <= r < high,
{
    rand::thread_rng().gen_range(low..high)
}

/// The hour of the local time of day.
///
/// Calls `chrono::Local::now` and `chrono::Timelike::hour`, which documents an
/// hour from 0 to 23. Which hour it is depends on the clock and the time zone.
#[verifier::external_body]
pub(crate) fn local_hour() -> (r: u32)
    ensures
        r < 24,
{
    chrono::Local::now().hour()
}

} // verus!

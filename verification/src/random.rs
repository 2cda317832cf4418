use vstd::prelude::*;

verus! {

/// Draws a number from `low` up to (not including) `high` with `rand::random_range`, which
/// samples the thread-local generator.
/// Claimed: the result lies in that range, as `Rng::random_range` documents; it panics on an
/// empty range, which the `requires` leaves out, and when the operating system's random source
/// cannot seed the thread-local generator, a condition of the machine that is not stated. Which
/// number comes is left open.
#[verifier::external_body]
pub(crate) fn random_range(low: i32, high: i32) -> (r: i32)
    requires
        low < high,
    ensures
        low <= r < high,
{
    rand::random_range(low..high)
}

/// Draws a number from `low` up to (not including) `high` with `Rng::random_range` on the
/// thread-local generator that `rand::rng` hands out.
/// Claimed: the result lies in that range, as `Rng::random_range` documents; it panics on an
/// empty range, which the `requires` leaves out, and `rand::rng` panics when the operating
/// system's random source cannot seed the generator, a condition of the machine that is not
/// stated. Which number comes is left open.
#[verifier::external_body]
pub(crate) fn thread_rng_random_range(low: i32, high: i32) -> (r: i32)
    requires
        low < high,
    ensures
        low <= r < high,
{
    rand::Rng::random_range(&mut rand::rng(), low..high)
}

} // verus!

use vstd::prelude::*;
use rand::RngExt;
use rand::rngs::ThreadRng;

verus! {

/// The thread-local generator of `rand`, carried through the library unopened.
#[verifier::external_type_specification]
#[verifier::external_body]
pub struct ExThreadRng(rand::rngs::ThreadRng);

/// Calls `rand::rng`, which hands out a handle on the thread-local generator
/// (seeded from the operating system on first use, and panicking only if that
/// seeding fails, which no argument can rule out). Nothing is claimed of the handle.
#[verifier::external_body]
pub(crate) fn thread_rng() -> ThreadRng {
    rand::rng()
}

/// Calls `RngExt::random_range` on the inclusive range `low..=high`. The crate's
/// source panics only on an empty range, which `requires` rules out, and returns
/// `low` plus a sample below the range's width; the contract claims only that the
/// value lies in the range, since which value comes back rests on chance.
#[verifier::external_body]
pub(crate) fn random_in_range(rng: &mut ThreadRng, low: u32, high: u32) -> (r: u32)
    requires
        low <= high,
    ensures
        low <= r <= high,
{
    rng.random_range(low..=high)
}

/// Calls `rand::random::<u64>()`, a uniform sample of all `u64` values from the
/// thread-local generator. Any value may come back, so nothing is claimed of it.
#[verifier::external_body]
pub(crate) fn random_u64() -> u64 {
    rand::random::<u64>()
}

} // verus!

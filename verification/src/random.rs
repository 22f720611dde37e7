//! Randomness, drawn from `rand`'s thread-local generator.
//!
//! Nothing here is verified. The contracts state only what holds of every
//! draw; two calls with the same arguments may differ. The generator seeds
//! itself from the operating system on its first use in a thread and panics
//! if the system has no entropy to give.

use vstd::prelude::*;
use rand::seq::SliceRandom;
use rand::Rng;

verus! {

/// One sample of `rand::distributions::Uniform::new(low, high)`, taken with
/// `Rng::sample` on `rand::thread_rng()`. Assumed of it: the sample lies in
/// the half-open range. The outside constructor panics when the range is
/// empty, so that is excluded.
#[verifier::external_body]
pub(crate) fn sample_uniform(low: usize, high: usize) -> (drawn: usize)
    requires
        low < high,
    ensures
        low <= drawn < high,
{
    let mut rng = rand::thread_rng();
    rng.sample(rand::distributions::Uniform::new(low, high))
}

/// `SliceRandom::shuffle` on the whole vector, with `rand::thread_rng()`.
/// Assumed of it: the items are rearranged, none is added, lost or changed.
#[verifier::external_body]
pub(crate) fn shuffle(items: &mut Vec<u32>)
    ensures
        final(items)@.to_multiset() == old(items)@.to_multiset(),
{
    let mut rng = rand::thread_rng();
    items.shuffle(&mut rng);
}

} // verus!

//! Shuffling through the `rand` crate. Nothing in this file is proved: each
//! function states what `rand` does, as its source shows it.

use rand::seq::SliceRandom;
use rand::SeedableRng;
use vstd::prelude::*;

verus! {

/// The order in which `rand`'s `SliceRandom::shuffle` leaves `items` when its
/// generator is a `StdRng` made by `SeedableRng::seed_from_u64(seed)`. The
/// generator is a fixed cipher keyed by the seed, and the shuffle draws
/// 32-bit numbers from it, so the order depends on `seed` and `items` alone.
pub uninterp spec fn seeded_order(seed: u64, items: Seq<u8>) -> Seq<u8>;

/// Calls `SliceRandom::shuffle` with the thread's generator, `rand::rng()`.
/// The shuffle only swaps entries, so afterwards `items` holds what it held
/// before, each value as often as before. Which order comes out is left
/// open. (`rand::rng()` panics if the operating system gives it no seed.)
#[verifier::external_body]
pub(crate) fn shuffle(items: &mut Vec<u8>)
    ensures
        final(items)@.to_multiset() == old(items)@.to_multiset(),
{
    let mut rng = rand::rng();
    items.shuffle(&mut rng);
}

/// Calls `SliceRandom::shuffle` with a `StdRng` seeded by
/// `SeedableRng::seed_from_u64(seed)`. The shuffle only swaps entries, so
/// `items` holds afterwards what it held before; the order is the one that
/// `seeded_order` names.
#[verifier::external_body]
pub(crate) fn shuffle_seeded(items: &mut Vec<u8>, seed: u64)
    ensures
        final(items)@ == seeded_order(seed, old(items)@),
        final(items)@.to_multiset() == old(items)@.to_multiset(),
{
    let mut rng = rand::rngs::StdRng::seed_from_u64(seed);
    items.shuffle(&mut rng);
}

} // verus!

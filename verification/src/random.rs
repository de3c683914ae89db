use vstd::prelude::*;
use rand::Rng;
use rand::SeedableRng;
use rand::distributions::IndependentSample;

verus! {

/// `rand::Rng::shuffle` on a `rand::thread_rng()`: the values are put in a
/// random order. The source only swaps entries, so the result is a
/// permutation; which one is left to chance and is not stated.
#[verifier::external_body]
pub(crate) fn shuffle_random(values: &mut Vec<usize>)
    ensures
        final(values)@.to_multiset() == old(values)@.to_multiset(),
        final(values)@.len() == old(values)@.len(),
{
    let mut rng = rand::thread_rng();
    rng.shuffle(values.as_mut_slice());
}

/// `rand::Rng::shuffle` on a `rand::StdRng` seeded with `[1, 2, 3, 4]`: the
/// values are put in an order fixed by the seed. The source only swaps
/// entries, so the result is a permutation. Which permutation it is depends on
/// the generator chosen for the machine's word size, and is not stated.
#[verifier::external_body]
pub(crate) fn shuffle_seeded(values: &mut Vec<usize>)
    ensures
        final(values)@.to_multiset() == old(values)@.to_multiset(),
        final(values)@.len() == old(values)@.len(),
{
    let seed: &[usize] = &[1, 2, 3, 4];
    let mut rng: rand::StdRng = rand::SeedableRng::from_seed(seed);
    rng.shuffle(values.as_mut_slice());
}

/// `rand::distributions::Range::new(low, high).ind_sample(&mut rand::thread_rng())`:
/// a random number with `low <= r < high`. `Range::new` panics unless `low < high`.
#[verifier::external_body]
pub(crate) fn random_in_range(low: usize, high: usize) -> (r: usize)
    requires
        low < high,
    ensures
        low <= r < high,
{
    let between = rand::distributions::Range::new(low, high);
    let mut rng = rand::thread_rng();
    between.ind_sample(&mut rng)
}

} // verus!

use rand::rngs::StdRng;
use rand::Rng;
use rand::SeedableRng;
use vstd::prelude::*;

verus! {

/// `rand::rngs::StdRng`, the generator behind a [`RandomSource`]. The
/// verifier sees nothing of its state.
#[verifier::external_type_specification]
#[verifier::external_body]
pub struct ExStdRng(rand::rngs::StdRng);

/// Calls `SeedableRng::seed_from_u64` on `StdRng`, which builds a generator
/// from `seed` and accepts every seed. Nothing is assumed of the generator
/// that comes back.
#[verifier::external_body]
fn seeded_generator(seed: u64) -> (generator: StdRng) {
    StdRng::seed_from_u64(seed)
}

/// Calls `Rng::gen_range` on the half-open range `0..bound`. The range must
/// not be empty, since `gen_range` panics on an empty range. Assumed of the
/// call: the number that comes back lies in the range. Which number it is,
/// and how the numbers are distributed, is not stated.
#[verifier::external_body]
fn index_below(generator: &mut StdRng, bound: usize) -> (index: usize)
    requires
        bound > 0,
    ensures
        index < bound,
{
    generator.gen_range(0..bound)
}

/// A seedable source of uniformly distributed choices.
pub struct RandomSource {
    generator: StdRng,
}

impl RandomSource {
    /// A source whose sequence of choices is determined by `seed`.
    pub fn seeded(seed: u64) -> (source: RandomSource) {
        RandomSource { generator: seeded_generator(seed) }
    }

    /// Draws a position in a list of `len` items, each position being equally
    /// likely. There is no position to draw in an empty list.
    pub fn choose_index(&mut self, len: usize) -> (choice: Option<usize>)
        ensures
            len == 0 <==> choice is None,
            choice matches Some(index) ==> index < len,
    {
        if len == 0 {
            None
        } else {
            Some(index_below(&mut self.generator, len))
        }
    }
}

} // verus!

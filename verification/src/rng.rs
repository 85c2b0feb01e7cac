use vstd::prelude::*;

verus! {

/// Declares rand's standard generator so it can stand in a field.
#[verifier::external_type_specification]
#[verifier::external_body]
pub struct ExStdRng(rand::rngs::StdRng);

/// Relies on rand's `SeedableRng::seed_from_u64`: builds a generator whose
/// draws are determined by the 64-bit seed; never panics.
#[verifier::external_body]
fn seed_std_rng(seed: u64) -> rand::rngs::StdRng {
    <rand::rngs::StdRng as rand::SeedableRng>::seed_from_u64(seed)
}

/// Relies on rand's `Rng::gen_range` over `0..n`: returns a uniformly
/// distributed value of the range. It panics only on an empty range, which
/// the precondition rules out.
#[verifier::external_body]
fn std_rng_below(rng: &mut rand::rngs::StdRng, n: usize) -> (r: usize)
    requires
        1 <= n,
    ensures
        r < n,
{
    rand::Rng::gen_range(rng, 0..n)
}

/// A seeded pseudorandom source for pool sampling and question selection.
/// To the verifier every draw is an arbitrary value of the stated range, so
/// everything proved about the engine holds for every sequence of draws.
pub struct QuizRng {
    inner: rand::rngs::StdRng,
}

impl QuizRng {
    /// A generator whose draws are determined by `seed`.
    pub fn new(seed: u64) -> QuizRng {
        QuizRng { inner: seed_std_rng(seed) }
    }

    /// One draw below `n`.
    pub(crate) fn below(&mut self, n: usize) -> (r: usize)
        requires
            1 <= n,
        ensures
            r < n,
    {
        std_rng_below(&mut self.inner, n)
    }
}

} // verus!

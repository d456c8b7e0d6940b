//! The deterministic uniform sampler behind `fountain`, built on fastrand.

use vstd::prelude::*;

verus! {

/// fastrand's generator, declared so that a value of it can be held in a
/// field and carried through verified code.
#[verifier::external_type_specification]
#[verifier::external_body]
pub struct ExRng(fastrand::Rng);

/// The `k`-th word drawn over the full `u32` range from a fastrand generator
/// seeded with `seed`. fastrand's wyrand stream is a pure function of the
/// seed, so the word is a function of `seed` and `k` alone; this gives that
/// function a name without writing the generator out.
pub uninterp spec fn scatter_word(seed: u64, k: nat) -> u32;

/// A deterministic uniform sampler: a fastrand generator together with the
/// seed it was built from and how many words it has drawn so far. The
/// generator always is the one seeded with `seed` and advanced `drawn` times:
/// `scatter_new` establishes this and `scatter_next` is its only mutator.
pub(crate) struct Scatter {
    pub(crate) rng: fastrand::Rng,
    pub(crate) seed: Ghost<u64>,
    pub(crate) drawn: Ghost<nat>,
}

/// Relies on fastrand::Rng::with_seed: it builds the generator from the seed
/// alone, so the words later drawn from it are `scatter_word(seed, 0)`,
/// `scatter_word(seed, 1)`, and so on, as `scatter_next` states.
#[verifier::external_body]
fn rng_with_seed(seed: u64) -> fastrand::Rng {
    fastrand::Rng::with_seed(seed)
}

/// A fresh sampler for `seed` that has drawn nothing yet.
pub(crate) fn scatter_new(seed: u64) -> (s: Scatter)
    ensures
        s.seed@ == seed,
        s.drawn@ == 0,
{
    Scatter { rng: rng_with_seed(seed), seed: Ghost(seed), drawn: Ghost(0 as nat) }
}

/// Relies on fastrand::Rng::u32 over the full range: it returns the next word
/// of the wyrand stream, a pure function of the generator state, and cannot
/// panic when the range is the whole type.
#[verifier::external_body]
pub(crate) fn scatter_next(s: &mut Scatter) -> (r: u32)
    ensures
        final(s).seed@ == old(s).seed@,
        final(s).drawn@ == old(s).drawn@ + 1,
        r == scatter_word(old(s).seed@, old(s).drawn@),
{
    s.rng.u32(..)
}

} // verus!

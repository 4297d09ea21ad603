use vstd::prelude::*;

verus! {

/// Errors raised by the simulation engine itself.  `InvalidArgument` marks a
/// call that offered the randomness source an empty choice set, or asked an
/// enumeration for an index outside its cardinality.
#[derive(Clone, Copy, Debug, PartialEq, Eq, Structural)]
pub enum SimError {
    InvalidArgument,
}

/// Names the `idx`-th 64-bit word that `rand::rngs::StdRng` hands out through
/// `RngCore::next_u64` after being built with `StdRng::seed_from_u64(seed)`.
/// `StdRng` is a ChaCha-based generator whose word stream is a pure function
/// of the seed and of the draw position, on every machine.
pub uninterp spec fn rng_word(seed: u64, idx: nat) -> u64;

#[verifier::external_type_specification]
#[verifier::external_body]
pub struct ExStdRng(rand::rngs::StdRng);

/// Deterministic randomness source: a seeded generator together with ghost
/// bookkeeping of the seed it was built from and of how many words it has
/// handed out so far.
pub struct RandomSource {
    pub inner: rand::rngs::StdRng,
    pub seed: Ghost<u64>,
    pub drawn: Ghost<nat>,
}

impl RandomSource {
    /// Relies on `StdRng::seed_from_u64` (rand): builds the generator in the
    /// state determined by `seed` alone, with no words drawn yet.
    #[verifier::external_body]
    pub fn new(seed: u64) -> (r: RandomSource)
        ensures
            r.seed@ == seed,
            r.drawn@ == 0,
    {
        RandomSource {
            inner: <rand::rngs::StdRng as rand::SeedableRng>::seed_from_u64(seed),
            seed: Ghost(seed),
            drawn: Ghost(0),
        }
    }

    /// Relies on `RngCore::next_u64` of `StdRng` (rand): returns the next
    /// word of the stream determined by the seed and the draw position.
    #[verifier::external_body]
    pub fn next_u64(&mut self) -> (r: u64)
        ensures
            final(self).seed@ == old(self).seed@,
            final(self).drawn@ == old(self).drawn@ + 1,
            r == rng_word(old(self).seed@, old(self).drawn@),
    {
        rand::RngCore::next_u64(&mut self.inner)
    }

    /// Uniform draw from `[0, n)`: the next word of the stream, reduced
    /// modulo `n`.
    pub fn next_below(&mut self, n: u64) -> (r: u64)
        requires
            n > 0,
        ensures
            final(self).seed@ == old(self).seed@,
            final(self).drawn@ == old(self).drawn@ + 1,
            r == rng_word(old(self).seed@, old(self).drawn@) % n,
            r < n,
    {
        let w = self.next_u64();
        w % n
    }

    /// Chooses a position uniformly from a finite sequence of length `len`.
    /// An empty choice set is a caller error and draws nothing.
    pub fn choose_index(&mut self, len: usize) -> (r: Result<usize, SimError>)
        ensures
            final(self).seed@ == old(self).seed@,
            len == 0 ==> r == Result::<usize, SimError>::Err(SimError::InvalidArgument)
                && final(self).drawn@ == old(self).drawn@,
            len > 0 ==> r == Result::<usize, SimError>::Ok(
                (rng_word(old(self).seed@, old(self).drawn@) % (len as u64)) as usize,
            ) && final(self).drawn@ == old(self).drawn@ + 1,
    {
        if len == 0 {
            Err(SimError::InvalidArgument)
        } else {
            let w = self.next_below(len as u64);
            Ok(w as usize)
        }
    }
}

} // verus!

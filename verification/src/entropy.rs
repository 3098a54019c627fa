//! The injected randomness capability.  Round generation consumes draws from
//! an `Entropy` value; everything that follows a draw is verified for every
//! value the draw could produce.

use vstd::prelude::*;

verus! {

/// Declares rand's thread-local generator handle so a value of it can sit in
/// a field; the engine never looks inside it.
#[verifier::external_type_specification]
#[verifier::external_body]
pub struct ExThreadRng(rand::rngs::ThreadRng);

/// A source of randomness for round generation, backed by rand's
/// thread-local generator.
pub struct Entropy {
    rng: rand::rngs::ThreadRng,
}

impl Entropy {
    /// Relies on rand::thread_rng: a handle to the thread-local generator.
    /// Nothing is promised of the draws it will produce.
    #[verifier::external_body]
    pub fn new() -> Entropy {
        Entropy { rng: rand::thread_rng() }
    }

    /// Relies on rand::Rng::gen_range over `0..n`: the result is uniformly
    /// distributed over `[0, n)`.  gen_range panics on an empty range, so
    /// `n` must be positive.
    #[verifier::external_body]
    pub fn pick_index(&mut self, n: usize) -> (i: usize)
        requires
            n >= 1,
        ensures
            i < n,
    {
        rand::Rng::gen_range(&mut self.rng, 0..n)
    }

    /// Relies on rand::seq::SliceRandom::shuffle: a Fisher-Yates pass that
    /// only swaps elements in place, so the new order holds exactly the old
    /// elements.
    #[verifier::external_body]
    pub fn shuffle_chars(&mut self, v: &mut Vec<char>)
        ensures
            final(v)@.len() == old(v)@.len(),
            final(v)@.to_multiset() == old(v)@.to_multiset(),
    {
        rand::seq::SliceRandom::shuffle(v.as_mut_slice(), &mut self.rng)
    }
}

} // verus!

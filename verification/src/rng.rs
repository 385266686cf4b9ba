//! The per-system generator handle.

use crate::generator::{
    generator_clone, generator_from_text, generator_from_u64, generator_next_u32,
    generator_next_u64, output, output_u64, step, words_from_text, words_from_u64,
    xorshift_words, Words,
};
use crate::seed::{Resources, Seed, SeedView};
use rand_xorshift::XorShiftRng;
use vstd::prelude::*;

verus! {

/// The words that a handle starts from, by the configured seed: a text is
/// expanded by the seeder, a number by the generator's own seeding from 64
/// bits, and without a seed the number 0 takes its place.
pub open spec fn initial_words(seed: Option<SeedView>) -> Words {
    match seed {
        Some(SeedView::Text(text)) => words_from_text(text),
        Some(SeedView::Number(n)) => words_from_u64(n),
        None => words_from_u64(0),
    }
}

/// The first `count` 32-bit numbers drawn from a generator that holds `words`.
pub open spec fn draws(words: Words, count: nat) -> Seq<u32>
    decreases count,
{
    if count == 0 {
        Seq::empty()
    } else {
        seq![output(words)] + draws(step(words), (count - 1) as nat)
    }
}

/// The random number generator.
///
/// This wraps `rand_xorshift`'s `XorShiftRng`, and dereferences to it: see
/// the `rand::Rng` trait for how to draw random data from it.
#[derive(Debug, PartialEq, Eq)]
pub struct Rng {
    inner: XorShiftRng,
}

impl Rng {
    /// The four words of the wrapped generator.
    pub closed spec fn words(&self) -> Words {
        xorshift_words(self.inner)
    }

    /// A new handle, seeded from the configuration's entry, or from 0 where
    /// it has none.
    pub fn from_resources(resources: &Resources) -> (rng: Self)
        ensures
            rng.words() == initial_words(resources@),
    {
        let inner = match resources.get() {
            Some(Seed::String(text)) => generator_from_text(text.as_str()),
            Some(Seed::Number(n)) => generator_from_u64(*n),
            None => generator_from_u64(0),
        };
        Rng { inner }
    }

    /// Draws the next 32-bit number.
    pub fn next_u32(&mut self) -> (drawn: u32)
        ensures
            drawn == output(old(self).words()),
            final(self).words() == step(old(self).words()),
    {
        generator_next_u32(&mut self.inner)
    }

    /// Draws the next 64-bit number, which takes two 32-bit draws.
    pub fn next_u64(&mut self) -> (drawn: u64)
        ensures
            drawn == output_u64(old(self).words()),
            final(self).words() == step(step(old(self).words())),
    {
        generator_next_u64(&mut self.inner)
    }
}

impl Clone for Rng {
    fn clone(&self) -> (copy: Self)
        ensures
            copy.words() == self.words(),
    {
        Rng { inner: generator_clone(&self.inner) }
    }
}

impl core::ops::Deref for Rng {
    type Target = XorShiftRng;

    fn deref(&self) -> (inner: &XorShiftRng)
        ensures
            xorshift_words(*inner) == self.words(),
    {
        &self.inner
    }
}

impl core::ops::DerefMut for Rng {
    fn deref_mut(&mut self) -> (inner: &mut XorShiftRng)
        ensures
            xorshift_words(*inner) == old(self).words(),
            final(self).words() == xorshift_words(*final(inner)),
    {
        &mut self.inner
    }
}

} // verus!

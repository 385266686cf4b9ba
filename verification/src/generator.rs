//! The xorshift generator of `rand_xorshift`, and what this library takes
//! on trust about it and about the two ways of seeding it.

use rand::{RngCore, SeedableRng};
use rand_seeder::Seeder;
use rand_xorshift::XorShiftRng;
use vstd::prelude::*;

verus! {

/// `rand_xorshift::XorShiftRng`, held as it is: its fields are private, and
/// contracts speak of it through `xorshift_words`.
#[verifier::external_type_specification]
#[verifier::external_body]
pub struct ExXorShiftRng(rand_xorshift::XorShiftRng);

/// The four 32-bit words `x`, `y`, `z`, `w` that a generator holds.
pub type Words = (u32, u32, u32, u32);

/// The words inside a `rand_xorshift::XorShiftRng`, its fields `x`, `y`, `z`
/// and `w` in this order: all of its state.
pub uninterp spec fn xorshift_words(g: XorShiftRng) -> Words;

/// The words of the generator that `XorShiftRng::seed_from_u64` makes from a
/// number: `rand_core` expands the number into sixteen seed bytes, which
/// `XorShiftRng::from_seed` reads as four words.
pub uninterp spec fn words_from_u64(n: u64) -> Words;

/// The words of the generator that `rand_seeder::Seeder` makes from a text:
/// it hashes the text and draws sixteen seed bytes from the hash's state.
pub uninterp spec fn words_from_text(text: Seq<char>) -> Words;

/// The words after one draw: three of them move up, and the last is mixed
/// from the first and the old last.
pub open spec fn step(s: Words) -> Words {
    let t: u32 = s.0 ^ (s.0 << 11u32);
    (s.1, s.2, s.3, s.3 ^ (s.3 >> 19u32) ^ (t ^ (t >> 8u32)))
}

/// The 32-bit number that a draw returns: the new last word.
pub open spec fn output(s: Words) -> u32 {
    step(s).3
}

/// The 64-bit number that a draw returns: two 32-bit draws, the first in the
/// low half.
pub open spec fn output_u64(s: Words) -> u64 {
    ((output(step(s)) as u64) << 32u64) | (output(s) as u64)
}

/// Calls `XorShiftRng::seed_from_u64`, which `rand_core` defines for every
/// seedable generator. Trusted: the generator it returns depends on the
/// number alone.
#[verifier::external_body]
pub(crate) fn generator_from_u64(n: u64) -> (g: XorShiftRng)
    ensures
        xorshift_words(g) == words_from_u64(n),
{
    XorShiftRng::seed_from_u64(n)
}

/// Calls `Seeder::from` on the text and then `Seeder::make_rng`. Trusted:
/// the generator it returns depends on the text alone.
#[verifier::external_body]
pub(crate) fn generator_from_text(text: &str) -> (g: XorShiftRng)
    ensures
        xorshift_words(g) == words_from_text(text@),
{
    Seeder::from(text).make_rng()
}

/// Calls `RngCore::next_u32` on the generator. Trusted: the words advance by
/// one `step`, and the new last word is returned.
#[verifier::external_body]
pub(crate) fn generator_next_u32(g: &mut XorShiftRng) -> (drawn: u32)
    ensures
        xorshift_words(*final(g)) == step(xorshift_words(*old(g))),
        drawn == output(xorshift_words(*old(g))),
{
    g.next_u32()
}

/// Calls `RngCore::next_u64` on the generator. Trusted: it makes two 32-bit
/// draws and returns them as one number, the first draw in the low half.
#[verifier::external_body]
pub(crate) fn generator_next_u64(g: &mut XorShiftRng) -> (drawn: u64)
    ensures
        xorshift_words(*final(g)) == step(step(xorshift_words(*old(g)))),
        drawn == output_u64(xorshift_words(*old(g))),
{
    g.next_u64()
}

/// Calls `Clone::clone` on the generator. Trusted: the copy holds the same
/// words.
#[verifier::external_body]
pub(crate) fn generator_clone(g: &XorShiftRng) -> (copy: XorShiftRng)
    ensures
        xorshift_words(copy) == xorshift_words(*g),
{
    g.clone()
}

} // verus!

//! What holds of seeds, registration and handles taken together.

use crate::generator::words_from_u64;
use crate::rng::{draws, initial_words, Rng};
use crate::seed::{published, SeedView};
use vstd::prelude::*;

verus! {

/// Two handles made from the same text seed start from the same words and
/// draw the same numbers, however many are drawn.
pub proof fn lemma_same_text_same_draws(a: Rng, b: Rng, text: Seq<char>, count: nat)
    requires
        a.words() == initial_words(Some(SeedView::Text(text))),
        b.words() == initial_words(Some(SeedView::Text(text))),
    ensures
        a.words() == b.words(),
        draws(a.words(), count) == draws(b.words(), count),
{
}

/// Two handles made from the same numeric seed start from the same words
/// and draw the same numbers, however many are drawn.
pub proof fn lemma_same_number_same_draws(a: Rng, b: Rng, n: u64, count: nat)
    requires
        a.words() == initial_words(Some(SeedView::Number(n))),
        b.words() == initial_words(Some(SeedView::Number(n))),
    ensures
        a.words() == b.words(),
        draws(a.words(), count) == draws(b.words(), count),
{
}

/// Without a configured seed every handle starts as one seeded with the
/// number 0 does, so all of them draw the same numbers.
pub proof fn lemma_unseeded_same_draws(a: Rng, b: Rng, count: nat)
    requires
        a.words() == initial_words(None),
        b.words() == initial_words(None),
    ensures
        a.words() == words_from_u64(0),
        a.words() == initial_words(Some(SeedView::Number(0))),
        draws(a.words(), count) == draws(b.words(), count),
{
}

/// Registering a plugin with an empty configuration leaves exactly the
/// plugin's seed there: one entry where it carries a seed, none where it does
/// not. Registering a plugin that carries a seed leaves that seed whatever
/// was there before.
pub proof fn lemma_registration(plugin: Option<SeedView>, before: Option<SeedView>)
    ensures
        published(plugin, None) == plugin,
        plugin is Some ==> published(plugin, before) == plugin,
        plugin is None ==> published(plugin, before) == before,
{
}

} // verus!

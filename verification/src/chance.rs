//! Every random draw the game makes, each behind one small function.
//!
//! The draws come from the `rand` crate and its thread-local generator. The
//! bodies in this file are not verified: each contract records what `rand`
//! documents of the call, and the rest of the crate is proved for whatever
//! value comes back.

use rand::distributions::WeightedIndex;
use rand::seq::IteratorRandom;
use rand::seq::SliceRandom;
use rand::Rng;
use vstd::prelude::*;

use crate::ingredients::Ingredient;

verus! {

/// The sum of a list of weights.
pub open spec fn total_weight(weights: Seq<usize>) -> nat
    decreases weights.len(),
{
    if weights.len() == 0 {
        0
    } else {
        total_weight(weights.drop_last()) + weights.last() as nat
    }
}

/// A fair coin: `rand::random::<bool>()`. Nothing is known of the outcome.
#[verifier::external_body]
pub(crate) fn coin_flip() -> (heads: bool) {
    rand::random()
}

/// `Rng::gen_ratio` on the thread-local generator: true with probability
/// `numerator / denominator`. `rand` panics when the denominator is zero or
/// smaller than the numerator, and documents the two certain cases: never
/// true for a zero numerator, always true when both numbers are equal.
#[verifier::external_body]
pub(crate) fn one_chance_in(numerator: u32, denominator: u32) -> (hit: bool)
    requires
        0 < denominator,
        numerator <= denominator,
    ensures
        numerator == 0 ==> !hit,
        numerator == denominator ==> hit,
{
    rand::thread_rng().gen_ratio(numerator, denominator)
}

/// `Rng::gen_range(low..high)` on the thread-local generator: a uniform
/// index of the half-open range. `rand` panics on an empty range.
#[verifier::external_body]
pub(crate) fn index_between(low: usize, high: usize) -> (index: usize)
    requires
        low < high,
    ensures
        low <= index < high,
{
    rand::thread_rng().gen_range(low..high)
}

/// `WeightedIndex::new` over `weights`, sampled once with `Rng::sample`: the
/// position of one weight, drawn with a chance proportional to that weight.
/// `rand` refuses an empty list and a total of zero, and adds the weights up
/// in `usize`; the result is a position of the list whose weight is not zero.
#[verifier::external_body]
pub(crate) fn weighted_index(weights: &Vec<usize>) -> (index: usize)
    requires
        weights@.len() > 0,
        0 < total_weight(weights@) <= usize::MAX,
    ensures
        index < weights@.len(),
        weights@[index as int] > 0,
{
    let distribution = WeightedIndex::new(weights).unwrap();
    rand::thread_rng().sample(distribution)
}

/// `SliceRandom::choose_multiple`: `amount` entries of `items` (all of them
/// when there are fewer), taken at distinct positions and handed back in
/// random order. As a bag the result lies within `items`.
#[verifier::external_body]
pub(crate) fn pick_several(items: &Vec<Ingredient>, amount: usize) -> (picked: Vec<Ingredient>)
    ensures
        picked@.len() == if amount <= items@.len() { amount as nat } else { items@.len() },
        picked@.to_multiset().subset_of(items@.to_multiset()),
{
    items.choose_multiple(&mut rand::thread_rng(), amount).copied().collect()
}

/// `IteratorRandom::choose` over the entries of `items`: one of them, each
/// equally likely, and `None` exactly when there is none to take.
#[verifier::external_body]
pub(crate) fn pick_one(items: &Vec<Ingredient>) -> (picked: Option<Ingredient>)
    ensures
        picked is Some <==> items@.len() > 0,
        picked matches Some(ingredient) ==> items@.contains(ingredient),
{
    items.iter().choose(&mut rand::thread_rng()).copied()
}

/// `SliceRandom::shuffle`: reorders `items` in place. There are as many
/// entries as before, and each occurs as often as before.
#[verifier::external_body]
pub(crate) fn shuffle(items: &mut Vec<Ingredient>)
    ensures
        final(items)@.len() == old(items)@.len(),
        final(items)@.to_multiset() == old(items)@.to_multiset(),
{
    items.shuffle(&mut rand::thread_rng())
}

} // verus!

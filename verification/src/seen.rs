//! The ingredients that were on display so far, as a set.
//!
//! The set is the hash set of the `bevy` crate. The bodies in this file are
//! not verified: each contract records what the call does to the contents
//! of the set.

use bevy::utils::HashSet;
use vstd::prelude::*;

use crate::ingredients::Ingredient;

verus! {

/// A set of ingredients, kept in a `bevy::utils::HashSet`.
///
/// Verus does not look inside: what the set holds is `seen_ingredients`,
/// and the four functions below say how the calls on it change that. The
/// set tells ingredients apart by the equality and the hash that
/// `Ingredient` derives.
#[verifier::external_body]
pub struct SeenIngredients {
    inner: HashSet<Ingredient>,
}

/// The ingredients that `seen` holds.
pub uninterp spec fn seen_ingredients(seen: SeenIngredients) -> Set<Ingredient>;

/// `bevy::utils::HashSet::default`: a set that holds nothing.
#[verifier::external_body]
pub(crate) fn seen_nothing() -> (seen: SeenIngredients)
    ensures
        seen_ingredients(seen) == Set::<Ingredient>::empty(),
{
    SeenIngredients { inner: HashSet::default() }
}

/// `bevy::utils::HashSet::insert`: afterwards the set holds `ingredient`
/// beside all it held before, whether it held `ingredient` already or not.
#[verifier::external_body]
pub(crate) fn seen_insert(seen: &mut SeenIngredients, ingredient: Ingredient)
    ensures
        seen_ingredients(*final(seen)) == seen_ingredients(*old(seen)).insert(ingredient),
{
    seen.inner.insert(ingredient);
}

/// `bevy::utils::HashSet::contains`: whether the set holds `ingredient`.
#[verifier::external_body]
pub(crate) fn seen_contains(seen: &SeenIngredients, ingredient: Ingredient) -> (found: bool)
    ensures
        found == seen_ingredients(*seen).contains(ingredient),
{
    seen.inner.contains(&ingredient)
}

/// `bevy::utils::HashSet::clear`: afterwards the set holds nothing.
#[verifier::external_body]
pub(crate) fn seen_clear(seen: &mut SeenIngredients)
    ensures
        seen_ingredients(*final(seen)) == Set::<Ingredient>::empty(),
{
    seen.inner.clear()
}

} // verus!

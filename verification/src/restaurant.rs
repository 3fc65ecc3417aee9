//! The menu board over a session: every ten seconds a new ingredient goes
//! up, at the end of the board while there is room and in place of an older
//! one after that.

use vstd::multiset::*;
use vstd::prelude::*;
use vstd::seq_lib::*;

use crate::chance;
use crate::ingredients::ingredients_not_among;
use crate::ingredients::lemma_not_among;
use crate::ingredients::not_among;
use crate::ingredients::Ingredient;
use crate::ingredients::Menu;
use crate::order::MenuOnDisplay;
use crate::recipe::has_meat;
use crate::recipe::patties_in;

verus! {

/// How many entries the board shows before new ones start to replace old
/// ones. One entry more than this can be on display.
pub const MENU_SIZE: usize = 8;

/// The time between two new ingredients, in milliseconds.
pub const ADD_INGREDIENT_INTERVAL_MS: u64 = 10_000;

/// A customer's order is ready to be shown.
#[derive(Clone, Copy, PartialEq, Eq, Debug, Structural)]
pub struct ShowOrderEvent;

/// An ingredient is to go up on the board.
#[derive(Clone, Copy, PartialEq, Eq, Debug, Structural)]
pub struct AddIngredientEvent {
    pub ingredient: Ingredient,
    /// Whether the ten-second timer asked for it, rather than the start of
    /// the session.
    pub timer: bool,
}

/// An ingredient went up on the board.
#[derive(Clone, Copy, PartialEq, Eq, Debug, Structural)]
pub struct ShowIngredientEvent {
    /// Whether it took the place of another one.
    pub replace: bool,
    /// Its place on the board, from the top.
    pub position: usize,
    pub ingredient: Ingredient,
    pub timer: bool,
}

/// Counts the time to the next new ingredient.
pub struct AddIngredientTimer {
    elapsed_ms: u64,
}

impl AddIngredientTimer {
    /// The time counted since the timer last went off.
    pub closed spec fn elapsed(&self) -> nat {
        self.elapsed_ms as nat
    }

    /// What holds of every timer: it has not counted a full interval.
    pub open spec fn wf(&self) -> bool {
        self.elapsed() < ADD_INGREDIENT_INTERVAL_MS
    }

    /// A timer that has counted nothing yet.
    pub fn new() -> (timer: Self)
        ensures
            timer.wf(),
            timer.elapsed() == 0,
    {
        AddIngredientTimer { elapsed_ms: 0 }
    }

    /// Counts `delta_ms` more. The timer goes off when that completes an
    /// interval, and goes on counting from what is left over.
    pub fn tick(&mut self, delta_ms: u64) -> (finished: bool)
        requires
            old(self).wf(),
        ensures
            final(self).wf(),
            finished == (old(self).elapsed() + delta_ms >= ADD_INGREDIENT_INTERVAL_MS),
            final(self).elapsed() == (old(self).elapsed() + delta_ms) % (
            ADD_INGREDIENT_INTERVAL_MS as int),
    {
        let left: u64 = ADD_INGREDIENT_INTERVAL_MS - self.elapsed_ms;
        let finished = delta_ms >= left;
        // The sum may not fit the counter, its remainder does.
        let total: u64 = self.elapsed_ms + delta_ms % ADD_INGREDIENT_INTERVAL_MS;
        self.elapsed_ms = total % ADD_INGREDIENT_INTERVAL_MS;
        assert(final(self).elapsed() == (old(self).elapsed() + delta_ms) % (
        ADD_INGREDIENT_INTERVAL_MS as int)) by {
            let interval = ADD_INGREDIENT_INTERVAL_MS as int;
            let whole = delta_ms as int / interval;
            assert(delta_ms as int == interval * whole + delta_ms as int % interval);
            assert((old(self).elapsed_ms as int + delta_ms as int) % interval == (
            old(self).elapsed_ms as int + delta_ms as int % interval) % interval) by {
                vstd::arithmetic::div_mod::lemma_mod_multiples_vanish(
                    whole,
                    old(self).elapsed_ms as int + delta_ms as int % interval,
                    interval,
                );
            }
        }
        finished
    }
}

/// Whether the entry at `place` may make room for `incoming` on a full
/// board. The first two places are never given up. While the board shows
/// fewer than two patties, an ingredient that is no patty does not take the
/// place of one.
pub open spec fn can_replace(shown: Seq<Ingredient>, incoming: Ingredient, place: int) -> bool {
    &&& 2 <= place < MENU_SIZE
    &&& !incoming.is_meat() && patties_in(shown) < 2 ==> !shown[place].is_meat()
}

/// Whether `place` is where `list` first holds `item`.
pub open spec fn is_first_place_of(list: Seq<Ingredient>, item: Ingredient, place: int) -> bool {
    &&& 0 <= place < list.len()
    &&& list[place] == item
    &&& forall|k: int| 0 <= k < place ==> list[k] != item
}

/// Two patties at two places make two patties.
pub proof fn lemma_two_patties(list: Seq<Ingredient>, one: int, other: int)
    requires
        0 <= one < other < list.len(),
        list[one].is_meat(),
        list[other].is_meat(),
    ensures
        patties_in(list) >= 2,
{
    broadcast use {to_multiset_remove, to_multiset_contains, group_multiset_axioms};

    let rest = list.remove(other);
    assert(rest[one] == list[one]);
    assert(rest.contains(list[one]));
    assert(rest.to_multiset().count(list[one]) > 0);
    assert(rest.to_multiset() == list.to_multiset().remove(list[other]));
}

/// A list holds a patty exactly when its count of patties is not zero.
pub proof fn lemma_has_meat_counts(list: Seq<Ingredient>)
    ensures
        has_meat(list) <==> patties_in(list) >= 1,
{
    broadcast use to_multiset_contains;

}

/// Making room on a full board costs neither of the first two entries, and
/// a board that showed a patty shows one afterwards.
pub proof fn lemma_replacement_spares(shown: Seq<Ingredient>, incoming: Ingredient, place: int)
    requires
        can_replace(shown, incoming, place),
        place < shown.len(),
    ensures
        shown.update(place, incoming)[0] == shown[0],
        shown.update(place, incoming)[1] == shown[1],
        !incoming.is_meat() && patties_in(shown) < 2 ==> patties_in(
            shown.update(place, incoming),
        ) == patties_in(shown),
        has_meat(shown) ==> has_meat(shown.update(place, incoming)),
{
    broadcast use {to_multiset_update, to_multiset_contains, group_multiset_axioms};

    let after = shown.update(place, incoming);
    assert(after.to_multiset() == shown.to_multiset().insert(incoming).remove(shown[place]));
    assert(shown.contains(shown[place]));
    lemma_has_meat_counts(shown);
    lemma_has_meat_counts(after);
}

/// How many patties `list` holds.
pub fn count_patties(list: &Vec<Ingredient>) -> (count: usize)
    ensures
        count == patties_in(list@),
{
    let mut count: usize = 0;
    let mut at: usize = 0;
    proof {
        to_multiset_len(list@.subrange(0, 0));
    }
    while at < list.len()
        invariant
            at <= list@.len(),
            count == patties_in(list@.subrange(0, at as int)),
            count <= at,
        decreases list@.len() - at,
    {
        proof {
            let counted = list@.subrange(0, at as int);
            let next = list@[at as int];
            assert(list@.subrange(0, at + 1) =~= counted.push(next));
            to_multiset_build(counted, next);
        }
        if list[at].is_meat() {
            count += 1;
        }
        at += 1;
    }
    assert(list@.subrange(0, at as int) =~= list@);
    count
}

/// The places of a full board that may make room for `incoming`, from the
/// top. There always is one.
pub fn replaceable_places(shown: &Vec<Ingredient>, incoming: Ingredient) -> (places: Vec<usize>)
    requires
        shown@.len() >= MENU_SIZE,
    ensures
        places@.len() > 0,
        forall|k: int|
            0 <= k < places@.len() ==> can_replace(shown@, incoming, #[trigger] places@[k] as int),
        forall|place: int|
            can_replace(shown@, incoming, place) ==> places@.contains(place as usize),
        forall|j: int, k: int| 0 <= j < k < places@.len() ==> places@[j] < places@[k],
{
    let spare_patties = !incoming.is_meat() && count_patties(shown) < 2;
    let mut places: Vec<usize> = Vec::new();
    let mut place: usize = 2;
    while place < MENU_SIZE
        invariant
            2 <= place <= MENU_SIZE <= shown@.len(),
            spare_patties == (!incoming.is_meat() && patties_in(shown@) < 2),
            forall|k: int|
                0 <= k < places@.len() ==> can_replace(
                    shown@,
                    incoming,
                    #[trigger] places@[k] as int,
                ) && places@[k] < place,
            forall|other: int|
                2 <= other < place && can_replace(shown@, incoming, other) ==> places@.contains(
                    other as usize,
                ),
            forall|j: int, k: int| 0 <= j < k < places@.len() ==> places@[j] < places@[k],
        decreases MENU_SIZE - place,
    {
        if !(spare_patties && shown[place].is_meat()) {
            let ghost before = places@;
            places.push(place);
            assert forall|other: int|
                2 <= other < place + 1 && can_replace(
                    shown@,
                    incoming,
                    other,
                ) implies places@.contains(other as usize) by {
                if other < place {
                    let k = choose|k: int| 0 <= k < before.len() && before[k] == other as usize;
                    assert(places@[k] == other as usize);
                } else {
                    assert(places@[before.len() as int] == other as usize);
                }
            }
        }
        place += 1;
    }
    proof {
        if places@.len() == 0 {
            if !shown@[2].is_meat() {
                assert(can_replace(shown@, incoming, 2));
                assert(places@.contains(2usize));
            } else if !shown@[3].is_meat() {
                assert(can_replace(shown@, incoming, 3));
                assert(places@.contains(3usize));
            } else {
                lemma_two_patties(shown@, 2, 3);
                assert(can_replace(shown@, incoming, 2));
                assert(places@.contains(2usize));
            }
        }
    }
    places
}

/// The place at which `list` first holds `item`.
pub fn first_place_of(list: &Vec<Ingredient>, item: Ingredient) -> (place: usize)
    requires
        list@.contains(item),
    ensures
        is_first_place_of(list@, item, place as int),
{
    let mut at: usize = 0;
    while at < list.len()
        invariant
            at <= list@.len(),
            list@.contains(item),
            forall|k: int| 0 <= k < at ==> list@[k] != item,
        decreases list@.len() - at,
    {
        if list[at] == item {
            return at;
        }
        at += 1;
    }
    at
}

/// Puts an ingredient up on the board and says where it went.
///
/// While the board shows `MENU_SIZE` entries or fewer, the ingredient goes
/// to the end. On a fuller board it takes the place of another: one of the
/// places that `can_replace` allows, left to chance. Either way the
/// ingredient counts as seen from now on.
pub fn add_ingredient_to_menu(menu: &mut MenuOnDisplay, event: AddIngredientEvent) -> (shown:
    ShowIngredientEvent)
    requires
        old(menu).wf(),
    ensures
        final(menu).wf(),
        final(menu).seen() == old(menu).seen().insert(event.ingredient),
        shown.ingredient == event.ingredient,
        shown.timer == event.timer,
        shown.replace == (old(menu)@.len() > MENU_SIZE),
        !shown.replace ==> final(menu)@ == old(menu)@.push(event.ingredient) && is_first_place_of(
            final(menu)@,
            event.ingredient,
            shown.position as int,
        ),
        shown.replace ==> can_replace(old(menu)@, event.ingredient, shown.position as int)
            && final(menu)@ == old(menu)@.update(shown.position as int, event.ingredient),
{
    let ingredient = event.ingredient;
    if menu.ingredients().len() <= MENU_SIZE {
        menu.show_at_end(ingredient);
        assert(menu@[menu@.len() - 1] == ingredient);
        let position = first_place_of(menu.ingredients(), ingredient);
        ShowIngredientEvent { replace: false, position, ingredient, timer: event.timer }
    } else {
        let places = replaceable_places(menu.ingredients(), ingredient);
        let to_replace = places[chance::index_between(0, places.len())];
        menu.show_in_place(to_replace, ingredient);
        ShowIngredientEvent { replace: true, position: to_replace, ingredient, timer: event.timer }
    }
}

/// Counts `delta_ms` on the timer and, when it goes off, asks for a new
/// ingredient: one that `menu` offers and the board does not show, each as
/// likely as the other. Nothing is asked for while the timer runs, nor when
/// the board already shows all that the menu offers.
pub fn add_ingredient_watcher(
    timer: &mut AddIngredientTimer,
    delta_ms: u64,
    menu: &Menu,
    menu_on_display: &MenuOnDisplay,
) -> (request: Option<AddIngredientEvent>)
    requires
        old(timer).wf(),
    ensures
        final(timer).wf(),
        final(timer).elapsed() == (old(timer).elapsed() + delta_ms) % (
        ADD_INGREDIENT_INTERVAL_MS as int),
        request is Some <==> old(timer).elapsed() + delta_ms >= ADD_INGREDIENT_INTERVAL_MS
            && not_among(menu.catalog(), menu_on_display@).len() > 0,
        request matches Some(event) ==> event.timer && menu.catalog().contains(event.ingredient)
            && !menu_on_display@.contains(event.ingredient),
{
    if !timer.tick(delta_ms) {
        return None;
    }
    let all = menu.ingredients();
    let mut ingredients_not_in_menu = ingredients_not_among(&all, menu_on_display.ingredients());
    let ghost candidates = ingredients_not_in_menu@;
    chance::shuffle(&mut ingredients_not_in_menu);
    if ingredients_not_in_menu.len() == 0 {
        return None;
    }
    let ingredient = ingredients_not_in_menu[0];
    proof {
        broadcast use to_multiset_contains;

        assert(ingredients_not_in_menu@.contains(ingredient));
        assert(ingredients_not_in_menu@.to_multiset().count(ingredient) > 0);
        assert(candidates.to_multiset().count(ingredient) > 0);
        lemma_not_among(menu.catalog(), menu_on_display@, ingredient);
    }
    Some(AddIngredientEvent { ingredient, timer: true })
}

} // verus!

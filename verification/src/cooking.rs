//! The burger on the plate: how keys build it up, take its last ingredient
//! off again and send it off.

use vstd::prelude::*;

use crate::audio::BGM;
use crate::audio::SFX;
use crate::ingredients::Ingredient;
use crate::order::BurgerFinishedEvent;
use crate::order::MenuOnDisplay;
use crate::order::Order;
use crate::score::Score;

verus! {

/// The key that takes the last ingredient off the burger.
pub const DELETE_KEY: char = '<';

/// The key that sends the burger to the customer.
pub const SEND_KEY: char = ' ';

/// The burger being put together, from the bottom up.
pub struct CurrentBurger {
    pub ingredients: Vec<Ingredient>,
}

impl Default for CurrentBurger {
    /// An empty plate.
    fn default() -> (burger: Self)
        ensures
            burger.ingredients@ == Seq::<Ingredient>::empty(),
    {
        CurrentBurger { ingredients: Vec::new() }
    }
}

/// Whether a customer is waiting for a burger.
#[derive(Clone, Copy, PartialEq, Eq, Debug, Structural)]
pub struct ExpectingOrder(pub bool);

/// Whether the session is played in madness mode, with a full board from
/// the start.
#[derive(Clone, Copy, PartialEq, Eq, Debug, Structural)]
pub struct MadnessMode(pub bool);

/// An ingredient that a key has put on the burger.
#[derive(Clone, Copy, PartialEq, Eq, Debug, Structural)]
pub struct IngredientAdded {
    pub ingredient: Ingredient,
    /// How many ingredients lay on the plate before this one.
    pub position: usize,
}

/// An ingredient that a key has taken off the burger.
#[derive(Clone, Copy, PartialEq, Eq, Debug, Structural)]
pub struct IngredientRemoved {
    pub ingredient: Ingredient,
    /// How many ingredients are left on the plate below where it lay.
    pub position: usize,
}

/// What is written over the plate once a burger has been received.
#[derive(Clone, Copy, PartialEq, Eq, Debug, Structural)]
pub enum Banner {
    /// So many right orders in a row, the last one included.
    Chain(i64),
    /// A wrong or late order.
    Miss,
}

/// The ingredient that `key` puts on the burger with `menu` on the board:
/// the one the key stands for, provided it has been on display.
pub open spec fn ingredient_for_key(key: char, menu: MenuOnDisplay) -> Option<Ingredient> {
    match Ingredient::spec_from_key(key) {
        Some(ingredient) => if menu.seen().contains(ingredient) {
            Some(ingredient)
        } else {
            None
        },
        None => None,
    }
}

/// The tune of a session.
pub fn start_cooking(is_madness: MadnessMode) -> (tune: BGM)
    ensures
        tune == if is_madness.0 {
            BGM::Madness
        } else {
            BGM::Classic
        },
{
    if is_madness.0 {
        BGM::Madness
    } else {
        BGM::Classic
    }
}

/// A key was pressed: the ingredient it stands for goes on top of the
/// burger, if it has been on display. Any other key leaves the burger as it
/// is.
pub fn add_ingredient(key: char, current_burger: &mut CurrentBurger, menu: &MenuOnDisplay) -> (added:
    Option<IngredientAdded>)
    ensures
        match ingredient_for_key(key, *menu) {
            Some(ingredient) => {
                &&& final(current_burger).ingredients@ == old(current_burger).ingredients@.push(
                    ingredient,
                )
                &&& added == Some(
                    IngredientAdded {
                        ingredient,
                        position: old(current_burger).ingredients@.len() as usize,
                    },
                )
            },
            None => {
                &&& final(current_burger).ingredients@ == old(current_burger).ingredients@
                &&& added is None
            },
        },
{
    if let Some(ingredient) = Ingredient::from_key(&key) {
        if !menu.has_seen(ingredient) {
            return None;
        }
        let position = current_burger.ingredients.len();
        current_burger.ingredients.push(ingredient);
        Some(IngredientAdded { ingredient, position })
    } else {
        None
    }
}

/// What `key` takes off `burger`: the delete key takes the last ingredient
/// of a burger that has one, and no other key takes anything.
pub open spec fn ingredient_deleted(key: char, burger: Seq<Ingredient>) -> Option<
    IngredientRemoved,
> {
    if key == DELETE_KEY && burger.len() > 0 {
        Some(
            IngredientRemoved { ingredient: burger.last(), position: (burger.len() - 1) as usize },
        )
    } else {
        None
    }
}

/// A key was pressed: the delete key takes the last ingredient off the
/// burger, and everything below it stays. Any other key leaves the burger as
/// it is, and so does the delete key on an empty plate.
pub fn delete_current(key: char, current_burger: &mut CurrentBurger) -> (removed: Option<
    IngredientRemoved,
>)
    ensures
        removed == ingredient_deleted(key, old(current_burger).ingredients@),
        final(current_burger).ingredients@ == if key == DELETE_KEY && old(
            current_burger,
        ).ingredients@.len() > 0 {
            old(current_burger).ingredients@.drop_last()
        } else {
            old(current_burger).ingredients@
        },
{
    if key != DELETE_KEY {
        return None;
    }
    match current_burger.ingredients.pop() {
        Some(ingredient) => {
            let position = current_burger.ingredients.len();
            Some(IngredientRemoved { ingredient, position })
        },
        None => None,
    }
}

/// Whether two burgers are the same: the same ingredients in the same
/// places.
pub fn same_burger(burger: &Vec<Ingredient>, other: &Vec<Ingredient>) -> (same: bool)
    ensures
        same == (burger@ == other@),
{
    if burger.len() != other.len() {
        return false;
    }
    let mut at: usize = 0;
    while at < burger.len()
        invariant
            at <= burger@.len(),
            burger@.len() == other@.len(),
            forall|k: int| 0 <= k < at ==> burger@[k] == other@[k],
        decreases burger@.len() - at,
    {
        if burger[at] != other[at] {
            return false;
        }
        at += 1;
    }
    assert(burger@ =~= other@);
    true
}

/// What sending `burger` does while `expecting` a burger for `order`: an
/// empty plate is not sent, nor anything when nobody waits; any other
/// burger is received, and is correct exactly when it is the order.
pub open spec fn burger_sent(order: Seq<Ingredient>, expecting: bool, burger: Seq<Ingredient>)
    -> Option<BurgerFinishedEvent> {
    if expecting && burger.len() > 0 {
        Some(
            BurgerFinishedEvent {
                correct: burger == order,
                size: burger.len() as usize,
                out_of_time: false,
            },
        )
    } else {
        None
    }
}

/// A key was pressed: the send key hands the burger to the customer, any
/// other key does nothing. Once a burger is handed over, nobody waits for
/// one any more.
pub fn send_order(
    key: char,
    order: &Order,
    expecting_order: &mut ExpectingOrder,
    current_burger: &CurrentBurger,
) -> (sent: Option<BurgerFinishedEvent>)
    ensures
        sent == if key == SEND_KEY {
            burger_sent(order.ingredients@, old(expecting_order).0, current_burger.ingredients@)
        } else {
            None
        },
        final(expecting_order).0 == (old(expecting_order).0 && sent is None),
{
    if key != SEND_KEY {
        return None;
    }
    if !expecting_order.0 {
        return None;
    }
    if current_burger.ingredients.len() > 0 {
        expecting_order.0 = false;
        let correct = same_burger(&current_burger.ingredients, &order.ingredients);
        Some(
            BurgerFinishedEvent {
                correct,
                size: current_burger.ingredients.len(),
                out_of_time: false,
            },
        )
    } else {
        None
    }
}

/// The sound of a burger that was handed over.
pub fn send_order_sfx(event: BurgerFinishedEvent) -> (sound: SFX)
    ensures
        sound == if event.correct {
            SFX::CorrectOrder
        } else {
            SFX::IncorrectOrder
        },
{
    if event.correct {
        SFX::CorrectOrder
    } else {
        SFX::IncorrectOrder
    }
}

/// A burger was received: the plate is cleared.
pub fn animate_burger(current_burger: &mut CurrentBurger)
    ensures
        final(current_burger).ingredients@ == Seq::<Ingredient>::empty(),
{
    current_burger.ingredients.clear();
}

/// What to write over the plate for a received burger, given the score
/// after it was booked: the length of the chain from the second right order
/// in a row on, a miss for a wrong one, and nothing for a first right one.
pub fn display_streak_or_miss(score: &Score, event: BurgerFinishedEvent) -> (banner: Option<Banner>)
    ensures
        banner == if !event.correct {
            Some(Banner::Miss)
        } else if score.streak > 1 {
            Some(Banner::Chain(score.streak))
        } else {
            None
        },
{
    if event.correct {
        if score.streak > 1 {
            Some(Banner::Chain(score.streak))
        } else {
            None
        }
    } else {
        Some(Banner::Miss)
    }
}

/// Handing over exactly what was ordered is correct, and nothing else is:
/// a burger that differs from the order in any place or in length is wrong,
/// be it another arrangement of the same ingredients or a part of them.
pub proof fn lemma_only_the_order_is_correct(order: Seq<Ingredient>, burger: Seq<Ingredient>)
    requires
        burger.len() > 0,
    ensures
        burger_sent(order, true, burger) is Some,
        burger_sent(order, true, burger).unwrap().correct <==> burger == order,
        burger.len() != order.len() ==> !burger_sent(order, true, burger).unwrap().correct,
        forall|k: int|
            0 <= k < burger.len() && k < order.len() && burger[k] != order[k]
                ==> !burger_sent(order, true, burger).unwrap().correct,
{
}

} // verus!

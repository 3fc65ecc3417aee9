//! The order a customer has placed, and the menu board it is made from.

use vstd::prelude::*;

use crate::cooking::ExpectingOrder;
use crate::cooking::MadnessMode;
use crate::ingredients::Ingredient;
use crate::ingredients::Menu;
use crate::recipe::has_meat;
use crate::recipe::is_basic_menu;
use crate::recipe::is_order_from;
use crate::recipe::OrderError;
use crate::restaurant::AddIngredientEvent;
use crate::restaurant::ShowOrderEvent;
use crate::restaurant::MENU_SIZE;
use crate::score::Score;
use crate::seen::seen_clear;
use crate::seen::seen_contains;
use crate::seen::seen_ingredients;
use crate::seen::seen_insert;
use crate::seen::seen_nothing;
use crate::seen::SeenIngredients;

verus! {

/// What the customer at the counter wants.
pub struct Order {
    /// The burger, from the bottom bread to the top one.
    pub ingredients: Vec<Ingredient>,
    /// When the order was placed, in milliseconds since the program started.
    pub creation_time: u64,
}

impl Default for Order {
    /// No order yet.
    fn default() -> (order: Self)
        ensures
            order.ingredients@ == Seq::<Ingredient>::empty(),
            order.creation_time == 0,
    {
        Order { ingredients: Vec::new(), creation_time: 0 }
    }
}

/// How a burger was received.
#[derive(Clone, Copy, PartialEq, Eq, Debug, Structural)]
pub struct BurgerFinishedEvent {
    /// Whether the burger is what the customer ordered.
    pub correct: bool,
    /// How many ingredients the burger had.
    pub size: usize,
    /// Whether the customer's patience ran out before anything was sent.
    pub out_of_time: bool,
}

/// The menu board: the ingredients on display, in the order of their
/// places, and every ingredient that was ever on display this session.
///
/// The board never shows more than `MENU_SIZE + 1` entries, and whatever it
/// shows has been seen.
pub struct MenuOnDisplay {
    ingredients: Vec<Ingredient>,
    ingredients_seen: SeenIngredients,
}

impl View for MenuOnDisplay {
    type V = Seq<Ingredient>;

    /// The ingredients on display, by place.
    closed spec fn view(&self) -> Seq<Ingredient> {
        self.ingredients@
    }
}

impl Default for MenuOnDisplay {
    /// An empty board.
    fn default() -> (menu: Self)
        ensures
            menu.wf(),
            menu@ == Seq::<Ingredient>::empty(),
            menu.seen() == Set::<Ingredient>::empty(),
    {
        MenuOnDisplay::new()
    }
}

impl MenuOnDisplay {
    /// Every ingredient that was on display since the board was cleared.
    pub closed spec fn seen(&self) -> Set<Ingredient> {
        seen_ingredients(self.ingredients_seen)
    }

    /// What holds of every board: it shows at most `MENU_SIZE + 1` entries,
    /// and whatever it shows has been seen.
    pub open spec fn wf(&self) -> bool {
        &&& self@.len() <= MENU_SIZE + 1
        &&& forall|k: int| 0 <= k < self@.len() ==> self.seen().contains(#[trigger] self@[k])
    }

    /// An empty board.
    pub fn new() -> (menu: Self)
        ensures
            menu.wf(),
            menu@ == Seq::<Ingredient>::empty(),
            menu.seen() == Set::<Ingredient>::empty(),
    {
        MenuOnDisplay { ingredients: Vec::new(), ingredients_seen: seen_nothing() }
    }

    /// The ingredients on display, by place.
    pub fn ingredients(&self) -> (shown: &Vec<Ingredient>)
        ensures
            shown@ == self@,
    {
        &self.ingredients
    }

    /// Whether `ingredient` was on display since the board was cleared.
    pub fn has_seen(&self, ingredient: Ingredient) -> (seen: bool)
        ensures
            seen == self.seen().contains(ingredient),
    {
        seen_contains(&self.ingredients_seen, ingredient)
    }

    /// Wipes the board, and the memory of what was on it.
    pub fn clear(&mut self)
        ensures
            final(self).wf(),
            final(self)@ == Seq::<Ingredient>::empty(),
            final(self).seen() == Set::<Ingredient>::empty(),
    {
        self.ingredients.clear();
        seen_clear(&mut self.ingredients_seen);
    }

    /// Remembers `ingredient` as seen, and shows it in a new place at the
    /// end of the board.
    pub fn show_at_end(&mut self, ingredient: Ingredient)
        requires
            old(self).wf(),
            old(self)@.len() <= MENU_SIZE,
        ensures
            final(self).wf(),
            final(self)@ == old(self)@.push(ingredient),
            final(self).seen() == old(self).seen().insert(ingredient),
    {
        self.mark_seen(ingredient);
        self.ingredients.push(ingredient);
    }

    /// Remembers `ingredient` as seen, and shows it at `place` instead of
    /// what was there.
    pub fn show_in_place(&mut self, place: usize, ingredient: Ingredient)
        requires
            old(self).wf(),
            place < old(self)@.len(),
        ensures
            final(self).wf(),
            final(self)@ == old(self)@.update(place as int, ingredient),
            final(self).seen() == old(self).seen().insert(ingredient),
    {
        self.mark_seen(ingredient);
        self.ingredients.remove(place);
        self.ingredients.insert(place, ingredient);
        assert(self.ingredients@ =~= old(self).ingredients@.update(place as int, ingredient));
    }

    /// Remembers `ingredient` as seen.
    fn mark_seen(&mut self, ingredient: Ingredient)
        ensures
            final(self)@ == old(self)@,
            final(self).seen() == old(self).seen().insert(ingredient),
    {
        seen_insert(&mut self.ingredients_seen, ingredient);
    }
}

/// A session begins: the board is wiped, and the ingredients to start with
/// are asked for, in the order in which they go up.
pub fn init_menu(menu: &Menu, madness_mode: MadnessMode, menu_on_display: &mut MenuOnDisplay) -> (requests:
    Vec<AddIngredientEvent>)
    ensures
        final(menu_on_display).wf(),
        final(menu_on_display)@ == Seq::<Ingredient>::empty(),
        final(menu_on_display).seen() == Set::<Ingredient>::empty(),
        is_basic_menu(
            *menu,
            madness_mode.0,
            requests@.map_values(|event: AddIngredientEvent| event.ingredient),
        ),
        forall|k: int| 0 <= k < requests@.len() ==> !(#[trigger] requests@[k]).timer,
{
    menu_on_display.clear();
    let seed = menu.basic_ingredients(madness_mode.0);
    let mut requests: Vec<AddIngredientEvent> = Vec::new();
    let mut at: usize = 0;
    while at < seed.len()
        invariant
            at <= seed@.len(),
            requests@.len() == at,
            forall|k: int|
                0 <= k < at ==> #[trigger] requests@[k] == (AddIngredientEvent {
                    ingredient: seed@[k],
                    timer: false,
                }),
        decreases seed@.len() - at,
    {
        requests.push(AddIngredientEvent { ingredient: seed[at], timer: false });
        at += 1;
    }
    assert(requests@.map_values(|event: AddIngredientEvent| event.ingredient) =~= seed@);
    requests
}

/// A customer was called: their order is made up from what the board
/// shows, and the clock starts at `now`.
///
/// Nothing happens while the board is still empty. A board without a patty
/// is refused, and nothing changes either.
pub fn add_order(
    menu: &MenuOnDisplay,
    menu_ref: &Menu,
    now: u64,
    order: &mut Order,
    expecting_order: &mut ExpectingOrder,
) -> (shown: Result<Option<ShowOrderEvent>, OrderError>)
    ensures
        shown == if menu@.len() == 0 {
            Ok(None)
        } else if has_meat(menu@) {
            Ok(Some(ShowOrderEvent))
        } else {
            Err(OrderError::NoMeat)
        },
        shown matches Ok(Some(_)) ==> {
            &&& is_order_from(menu@, final(order).ingredients@)
            &&& final(order).creation_time == now
            &&& final(expecting_order).0
        },
        !(shown matches Ok(Some(_))) ==> *final(order) == *old(order) && *final(expecting_order)
            == *old(expecting_order),
{
    if menu.ingredients().len() == 0 {
        return Ok(None);
    }
    match menu_ref.generate_order(menu.ingredients()) {
        Ok(ingredients) => {
            order.ingredients = ingredients;
            order.creation_time = now;
            expecting_order.0 = true;
            Ok(Some(ShowOrderEvent))
        },
        Err(error) => Err(error),
    }
}

/// How booking a received burger changes the score: a correct one wins
/// points for the time left at `now`, any other costs a life.
pub open spec fn score_after(score: Score, order: Order, now: u64, event: BurgerFinishedEvent)
    -> Score {
    if event.correct {
        score.after_success((now - order.creation_time) as nat, event.size as nat)
    } else {
        score.after_failure()
    }
}

/// Whether a received burger can be booked: a correct one has not come
/// before its order and its points fit the sheet; for any other there is a
/// life left to count down.
pub open spec fn can_receive(score: Score, order: Order, now: u64, event: BurgerFinishedEvent)
    -> bool {
    if event.correct {
        order.creation_time <= now && score.can_score(
            (now - order.creation_time) as nat,
            event.size as nat,
        )
    } else {
        score.lives > i32::MIN
    }
}

/// Books a received burger.
pub fn receive_burger(now: u64, order: &Order, score: &mut Score, event: BurgerFinishedEvent)
    requires
        can_receive(*old(score), *order, now, event),
    ensures
        *final(score) == score_after(*old(score), *order, now, event),
{
    if event.correct {
        let duration: u64 = now - order.creation_time;
        score.compute_on_success(duration, event.size);
    } else {
        score.compute_on_failure();
    }
}

} // verus!

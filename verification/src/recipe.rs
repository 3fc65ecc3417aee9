//! How a customer's order is put together from the ingredients on display.
//!
//! An order is a burger between two slices of bread. Its patty is steak or
//! chicken, whichever the menu shows (a coin decides when it shows both).
//! Around the patty go ordinary ingredients, each at most twice as often as
//! the menu shows it, perhaps a second and a third patty, and perhaps one
//! sauce on top.

use vstd::multiset::*;
use vstd::prelude::*;
use vstd::seq_lib::*;

use crate::chance;
use crate::chance::total_weight;
use crate::ingredients::contains_ingredient;
use crate::ingredients::ingredients_not_among;
use crate::ingredients::lemma_not_among;
use crate::ingredients::lemma_some_ingredient_left;
use crate::ingredients::Ingredient;
use crate::ingredients::Menu;
use crate::restaurant::MENU_SIZE;

verus! {

/// The nominal size of the largest burger, bread included.
pub const MAX_SIZE_OF_BURGER: usize = 10;

/// Why no order could be made.
#[derive(Clone, Copy, PartialEq, Eq, Debug, Structural)]
pub enum OrderError {
    /// The ingredients on display hold neither steak nor chicken.
    NoMeat,
}

/// The ordinary ingredients of `pool`, in their order.
pub open spec fn ordinary_part(pool: Seq<Ingredient>) -> Seq<Ingredient> {
    pool.filter(|i: Ingredient| i.is_ordinary())
}

/// What the filling is drawn from: every ordinary ingredient of `pool`
/// twice, and one patty.
pub open spec fn filling_pool(pool: Seq<Ingredient>, meat: Ingredient) -> Seq<Ingredient> {
    (ordinary_part(pool) + ordinary_part(pool)).push(meat)
}

/// Whether `pool` shows steak or chicken.
pub open spec fn has_meat(pool: Seq<Ingredient>) -> bool {
    pool.contains(Ingredient::Steak) || pool.contains(Ingredient::Chicken)
}

/// The first patty of `pool`, if it has one.
pub open spec fn first_meat(pool: Seq<Ingredient>) -> Option<Ingredient>
    decreases pool.len(),
{
    if pool.len() == 0 {
        None
    } else if pool.first().is_meat() {
        Some(pool.first())
    } else {
        first_meat(pool.drop_first())
    }
}

/// The random decisions behind one order.
pub ghost struct OrderDraws {
    /// The patty of this burger.
    pub meat: Ingredient,
    /// What was drawn from the filling pool.
    pub picked: Seq<Ingredient>,
    /// Whether one more patty was thrown in at the end.
    pub extra_patty: bool,
    /// The sauce on top, if any.
    pub sauce: Option<Ingredient>,
}

impl OrderDraws {
    pub open spec fn sauce_count(self) -> nat {
        if self.sauce is Some {
            1
        } else {
            0
        }
    }

    /// How many ingredients lie between the bottom bread and the sauce.
    pub open spec fn filling_len(self) -> nat {
        self.picked.len() + 1 + if self.extra_patty {
            1nat
        } else {
            0nat
        }
    }

    /// The ingredients between the bottom bread and the sauce, as a bag.
    pub open spec fn filling(self) -> Multiset<Ingredient> {
        let guaranteed = self.picked.to_multiset().insert(self.meat);
        if self.extra_patty {
            guaranteed.insert(self.meat)
        } else {
            guaranteed
        }
    }

    /// Whether these decisions can be made with `pool` on display.
    pub open spec fn allowed_by(self, pool: Seq<Ingredient>) -> bool {
        &&& self.meat.is_meat()
        &&& pool.contains(self.meat)
        &&& self.sauce matches Some(sauce) ==> sauce.is_sauce() && pool.contains(sauce)
        &&& self.picked.to_multiset().subset_of(filling_pool(pool, self.meat).to_multiset())
        &&& self.picked.len() + 3 + self.sauce_count() <= MAX_SIZE_OF_BURGER
        &&& self.extra_patty ==> self.picked.len() + 1 < MAX_SIZE_OF_BURGER - 2
    }

    /// Whether `order` is one of the burgers these decisions lead to: bread,
    /// the filling in any arrangement, the sauce if there is one, bread.
    pub open spec fn yields(self, order: Seq<Ingredient>) -> bool {
        &&& order.len() == self.filling_len() + self.sauce_count() + 2
        &&& order.first() == Ingredient::Bread
        &&& order.last() == Ingredient::Bread
        &&& order.subrange(1, 1 + self.filling_len() as int).to_multiset() == self.filling()
        &&& self.sauce matches Some(sauce) ==> order[order.len() - 2] == sauce
    }
}

/// Whether `seed` is a menu that a session can start with: bread, then a
/// patty, then salad, ketchup or cheese; in madness mode further ingredients
/// of the catalog follow until the menu has `MENU_SIZE` entries. Nothing is
/// on it twice.
pub open spec fn is_basic_menu(menu: Menu, madness_mode: bool, seed: Seq<Ingredient>) -> bool {
    &&& seed.len() == if madness_mode {
        MENU_SIZE
    } else {
        3
    }
    &&& seed[0] == Ingredient::Bread
    &&& seed[1].is_meat()
    &&& seed[2] == Ingredient::Salad || seed[2] == Ingredient::Ketchup || seed[2]
        == Ingredient::Cheese
    &&& forall|k: int| 3 <= k < seed.len() ==> menu.catalog().contains(#[trigger] seed[k])
    &&& seed.no_duplicates()
}

/// Whether `order` can come out of `pool`.
pub open spec fn is_order_from(pool: Seq<Ingredient>, order: Seq<Ingredient>) -> bool {
    exists|draws: OrderDraws| #[trigger] draws.allowed_by(pool) && draws.yields(order)
}

/// How often `item` occurs in `list`.
pub open spec fn count_in(list: Seq<Ingredient>, item: Ingredient) -> nat {
    list.to_multiset().count(item)
}

/// How many sauces `list` holds, mayo and ketchup together.
pub open spec fn sauces_in(list: Seq<Ingredient>) -> nat {
    count_in(list, Ingredient::Mayo) + count_in(list, Ingredient::Ketchup)
}

/// How many patties `list` holds, steak and chicken together.
pub open spec fn patties_in(list: Seq<Ingredient>) -> nat {
    count_in(list, Ingredient::Steak) + count_in(list, Ingredient::Chicken)
}

/// Sorting the ordinary ingredients out of a list keeps each of them as
/// often as it was there, and nothing else.
pub proof fn lemma_ordinary_part_counts(pool: Seq<Ingredient>, item: Ingredient)
    ensures
        count_in(ordinary_part(pool), item) == if item.is_ordinary() {
            count_in(pool, item)
        } else {
            0
        },
    decreases pool.len(),
{
    broadcast use {to_multiset_build, group_multiset_axioms};

    let ordinary = |i: Ingredient| i.is_ordinary();
    if pool.len() == 0 {
        assert(ordinary_part(pool) =~= pool) by {
            reveal(Seq::filter);
        }
        to_multiset_len(pool);
    } else {
        let front = pool.drop_last();
        let last = pool.last();
        lemma_ordinary_part_counts(front, item);
        assert(pool =~= front.push(last));
        front.lemma_filter_push(last, ordinary);
        assert(pool.to_multiset() =~= front.to_multiset().insert(last));
        if last.is_ordinary() {
            assert(ordinary_part(pool).to_multiset() =~= ordinary_part(front).to_multiset().insert(
                last,
            ));
        }
    }
}

/// What the filling pool holds: each ordinary ingredient twice as often as
/// the menu shows it, the chosen patty once, and nothing else.
pub proof fn lemma_filling_pool_counts(pool: Seq<Ingredient>, meat: Ingredient, item: Ingredient)
    requires
        meat.is_meat(),
    ensures
        count_in(filling_pool(pool, meat), item) == if item.is_ordinary() {
            2 * count_in(pool, item)
        } else if item == meat {
            1
        } else {
            0
        },
{
    broadcast use {to_multiset_build, lemma_multiset_commutative, group_multiset_axioms};

    lemma_ordinary_part_counts(pool, item);
    let once = ordinary_part(pool);
    assert(filling_pool(pool, meat).to_multiset() =~= once.to_multiset().add(
        once.to_multiset(),
    ).insert(meat));
}

/// An order as a bag: the filling, two slices of bread, and the sauce if
/// there is one.
pub proof fn lemma_order_as_bag(draws: OrderDraws, order: Seq<Ingredient>)
    requires
        draws.yields(order),
    ensures
        order.to_multiset() == match draws.sauce {
            Some(sauce) => draws.filling().insert(Ingredient::Bread).insert(sauce).insert(
                Ingredient::Bread,
            ),
            None => draws.filling().insert(Ingredient::Bread).insert(Ingredient::Bread),
        },
{
    broadcast use {to_multiset_build, to_multiset_insert, group_multiset_axioms};

    let inner = order.subrange(1, 1 + draws.filling_len() as int);
    match draws.sauce {
        Some(sauce) => {
            assert(order =~= inner.insert(0, Ingredient::Bread).push(sauce).push(
                Ingredient::Bread,
            ));
        },
        None => {
            assert(order =~= inner.insert(0, Ingredient::Bread).push(Ingredient::Bread));
        },
    }
}

/// What an order holds, ingredient by ingredient: two slices of bread; the
/// chosen patty once, twice or three times and no other patty; the sauce
/// that was decided on and no other; and each ordinary ingredient at most
/// twice as often as the menu shows it.
pub proof fn lemma_order_contents(pool: Seq<Ingredient>, draws: OrderDraws, order: Seq<Ingredient>)
    requires
        draws.allowed_by(pool),
        draws.yields(order),
    ensures
        count_in(order, Ingredient::Bread) == 2,
        1 <= count_in(order, draws.meat) <= 3,
        patties_in(order) == count_in(order, draws.meat),
        sauces_in(order) == draws.sauce_count(),
        draws.sauce matches Some(sauce) ==> count_in(order, sauce) == 1,
        forall|item: Ingredient|
            item.is_ordinary() ==> #[trigger] count_in(order, item) <= 2 * count_in(pool, item),
{
    broadcast use group_multiset_axioms;

    lemma_order_as_bag(draws, order);
    let picked = draws.picked.to_multiset();
    let from = filling_pool(pool, draws.meat);
    assert forall|item: Ingredient| #[trigger] picked.count(item) <= count_in(from, item) by {}
    lemma_filling_pool_counts(pool, draws.meat, Ingredient::Bread);
    lemma_filling_pool_counts(pool, draws.meat, Ingredient::Steak);
    lemma_filling_pool_counts(pool, draws.meat, Ingredient::Chicken);
    lemma_filling_pool_counts(pool, draws.meat, Ingredient::Mayo);
    lemma_filling_pool_counts(pool, draws.meat, Ingredient::Ketchup);
    assert(picked.count(Ingredient::Bread) <= count_in(from, Ingredient::Bread));
    assert(picked.count(Ingredient::Steak) <= count_in(from, Ingredient::Steak));
    assert(picked.count(Ingredient::Chicken) <= count_in(from, Ingredient::Chicken));
    assert(picked.count(Ingredient::Mayo) <= count_in(from, Ingredient::Mayo));
    assert(picked.count(Ingredient::Ketchup) <= count_in(from, Ingredient::Ketchup));
    assert forall|item: Ingredient| item.is_ordinary() implies #[trigger] count_in(order, item) <= 2
        * count_in(pool, item) by {
        lemma_filling_pool_counts(pool, draws.meat, item);
        assert(picked.count(item) <= count_in(from, item));
    }
}

/// An order lies between two slices of bread, holds a patty, and is at most
/// one ingredient longer than the nominal largest burger. It is that long
/// only with a sauce on top of a full filling that got its extra patty; in
/// every other case it keeps to the nominal size.
pub proof fn lemma_order_shape(pool: Seq<Ingredient>, draws: OrderDraws, order: Seq<Ingredient>)
    requires
        draws.allowed_by(pool),
        draws.yields(order),
    ensures
        order.first() == Ingredient::Bread,
        order.last() == Ingredient::Bread,
        order.contains(draws.meat),
        patties_in(order) >= 1,
        3 <= order.len() <= MAX_SIZE_OF_BURGER + 1,
        order.len() == MAX_SIZE_OF_BURGER + 1 <==> draws.sauce is Some && draws.extra_patty
            && draws.picked.len() + 4 == MAX_SIZE_OF_BURGER,
{
    broadcast use to_multiset_contains;

    lemma_order_contents(pool, draws, order);
}

/// The size limit of a burger, for every order but the overfull one: unless
/// a sauce was decided on, the extra patty fell, and as many ingredients were
/// drawn as a sauced burger allows, the order has at most
/// `MAX_SIZE_OF_BURGER` ingredients, bread included.
pub proof fn lemma_order_within_size(
    pool: Seq<Ingredient>,
    draws: OrderDraws,
    order: Seq<Ingredient>,
)
    requires
        draws.allowed_by(pool),
        draws.yields(order),
        !(draws.sauce is Some && draws.extra_patty && draws.picked.len() + 4
            == MAX_SIZE_OF_BURGER),
    ensures
        order.first() == Ingredient::Bread,
        order.last() == Ingredient::Bread,
        order.len() <= MAX_SIZE_OF_BURGER,
        patties_in(order) >= 1,
{
    lemma_order_shape(pool, draws, order);
}

/// An order never holds more than one sauce.
pub proof fn lemma_order_has_one_sauce_at_most(pool: Seq<Ingredient>, order: Seq<Ingredient>)
    requires
        is_order_from(pool, order),
    ensures
        sauces_in(order) <= 1,
{
    let draws = choose|draws: OrderDraws| #[trigger]
        draws.allowed_by(pool) && draws.yields(order);
    lemma_order_contents(pool, draws, order);
}

/// What `first_meat` finds is a patty of the pool, and it finds one
/// whenever the pool has any.
pub proof fn lemma_first_meat(pool: Seq<Ingredient>)
    ensures
        first_meat(pool) is Some <==> has_meat(pool),
        first_meat(pool) matches Some(meat) ==> meat.is_meat() && pool.contains(meat),
    decreases pool.len(),
{
    if pool.len() > 0 {
        let rest = pool.drop_first();
        lemma_first_meat(rest);
        assert(forall|k: int| 0 <= k < rest.len() ==> rest[k] == pool[k + 1]);
        if pool.first().is_meat() {
            assert(pool[0] == pool.first());
        } else {
            if has_meat(pool) {
                let meat = if pool.contains(Ingredient::Steak) {
                    Ingredient::Steak
                } else {
                    Ingredient::Chicken
                };
                let k = choose|k: int| 0 <= k < pool.len() && pool[k] == meat;
                assert(rest[k - 1] == meat);
            }
            if let Some(meat) = first_meat(rest) {
                let k = choose|k: int| 0 <= k < rest.len() && rest[k] == meat;
                assert(pool[k + 1] == meat);
            }
        }
    }
}

/// The first patty of `pool`, if it has one.
pub fn find_meat(pool: &Vec<Ingredient>) -> (meat: Option<Ingredient>)
    ensures
        meat == first_meat(pool@),
{
    let mut at: usize = 0;
    assert(pool@.subrange(0, pool@.len() as int) =~= pool@);
    while at < pool.len()
        invariant
            at <= pool@.len(),
            first_meat(pool@) == first_meat(pool@.subrange(at as int, pool@.len() as int)),
        decreases pool@.len() - at,
    {
        let ghost rest = pool@.subrange(at as int, pool@.len() as int);
        assert(rest.first() == pool@[at as int]);
        if pool[at].is_meat() {
            return Some(pool[at]);
        }
        assert(rest.drop_first() =~= pool@.subrange(at + 1, pool@.len() as int));
        at += 1;
    }
    assert(pool@.subrange(at as int, pool@.len() as int).len() == 0);
    None
}

/// The ordinary ingredients of `pool`, in their order.
pub fn ordinary_ingredients(pool: &Vec<Ingredient>) -> (kept: Vec<Ingredient>)
    ensures
        kept@ == ordinary_part(pool@),
{
    let mut kept: Vec<Ingredient> = Vec::new();
    let mut at: usize = 0;
    assert(pool@.subrange(0, 0) =~= Seq::<Ingredient>::empty());
    assert(ordinary_part(Seq::<Ingredient>::empty()) =~= Seq::<Ingredient>::empty()) by {
        reveal(Seq::filter);
    }
    while at < pool.len()
        invariant
            at <= pool@.len(),
            kept@ == ordinary_part(pool@.subrange(0, at as int)),
        decreases pool@.len() - at,
    {
        let item = pool[at];
        proof {
            let seen = pool@.subrange(0, at as int);
            assert(pool@.subrange(0, at + 1) =~= seen.push(item));
            seen.lemma_filter_push(item, |i: Ingredient| i.is_ordinary());
        }
        match item {
            Ingredient::Bread
            | Ingredient::Steak
            | Ingredient::Chicken
            | Ingredient::Mayo
            | Ingredient::Ketchup => {},
            _ => {
                kept.push(item);
            },
        }
        at += 1;
    }
    assert(pool@.subrange(0, at as int) =~= pool@);
    kept
}

/// What the filling is drawn from: every ordinary ingredient of `pool`
/// twice, and one patty.
pub fn filling_candidates(pool: &Vec<Ingredient>, meat: Ingredient) -> (candidates: Vec<Ingredient>)
    ensures
        candidates@ == filling_pool(pool@, meat),
{
    let once = ordinary_ingredients(pool);
    let mut candidates = ordinary_ingredients(pool);
    let mut at: usize = 0;
    while at < once.len()
        invariant
            at <= once@.len(),
            candidates@ == once@ + once@.subrange(0, at as int),
        decreases once@.len() - at,
    {
        candidates.push(once[at]);
        assert(once@.subrange(0, at + 1) =~= once@.subrange(0, at as int).push(once@[at as int]));
        at += 1;
    }
    assert(once@.subrange(0, at as int) =~= once@);
    candidates.push(meat);
    candidates
}

/// The weights `1, 2, .., count`: a draw among them favours the later
/// positions in proportion.
pub fn linear_weights(count: usize) -> (weights: Vec<usize>)
    requires
        count <= MAX_SIZE_OF_BURGER,
    ensures
        weights@.len() == count,
        forall|k: int| 0 <= k < count ==> weights@[k] == k + 1,
        count <= total_weight(weights@) <= count * MAX_SIZE_OF_BURGER,
{
    let mut weights: Vec<usize> = Vec::new();
    let mut at: usize = 0;
    while at < count
        invariant
            at <= count <= MAX_SIZE_OF_BURGER,
            weights@.len() == at,
            forall|k: int| 0 <= k < at ==> weights@[k] == k + 1,
            at <= total_weight(weights@) <= at * MAX_SIZE_OF_BURGER,
        decreases count - at,
    {
        let ghost before = weights@;
        weights.push(at + 1);
        assert(weights@.drop_last() =~= before);
        at += 1;
    }
    weights
}

/// The patty of a burger made from `pool`: steak or chicken at the caller's
/// wish when the pool shows both, else the first patty it shows.
pub open spec fn chosen_meat(pool: Seq<Ingredient>, prefer_chicken: bool) -> Option<Ingredient> {
    if pool.contains(Ingredient::Chicken) && pool.contains(Ingredient::Steak) {
        if prefer_chicken {
            Some(Ingredient::Chicken)
        } else {
            Some(Ingredient::Steak)
        }
    } else {
        first_meat(pool)
    }
}

/// The sauce of a burger made from `pool`, if a sauce is wanted and the pool
/// shows one: the only sauce it shows, or ketchup or mayo at the caller's
/// wish when it shows both.
pub open spec fn chosen_sauce(pool: Seq<Ingredient>, wants_sauce: bool, prefer_ketchup: bool)
    -> Option<Ingredient> {
    let possible_ketchup = pool.contains(Ingredient::Ketchup);
    let possible_mayo = pool.contains(Ingredient::Mayo);
    if !(wants_sauce && (possible_ketchup || possible_mayo)) {
        None
    } else if !possible_mayo || (possible_ketchup && prefer_ketchup) {
        Some(Ingredient::Ketchup)
    } else {
        Some(Ingredient::Mayo)
    }
}

/// The most ingredients that can be drawn for a filling: all the
/// candidates, as far as the burger has room beside its bread, its patty
/// and its sauce.
pub open spec fn most_ingredients(candidates: nat, sauce: bool) -> nat {
    let room = MAX_SIZE_OF_BURGER - 2 - 1 - if sauce {
        1int
    } else {
        0int
    };
    if candidates < room {
        candidates
    } else {
        room as nat
    }
}

/// A filling and its sauce between two slices of bread.
pub open spec fn wrapped(filling: Seq<Ingredient>, sauce: Option<Ingredient>) -> Seq<Ingredient> {
    let below = seq![Ingredient::Bread] + filling;
    match sauce {
        Some(chosen) => below.push(chosen).push(Ingredient::Bread),
        None => below.push(Ingredient::Bread),
    }
}

/// The patty of a burger made from `pool`.
pub fn choose_meat(pool: &Vec<Ingredient>, prefer_chicken: bool) -> (meat: Option<Ingredient>)
    ensures
        meat == chosen_meat(pool@, prefer_chicken),
        meat is Some <==> has_meat(pool@),
        meat matches Some(patty) ==> patty.is_meat() && pool@.contains(patty),
{
    proof {
        lemma_first_meat(pool@);
    }
    if contains_ingredient(pool, Ingredient::Chicken) && contains_ingredient(
        pool,
        Ingredient::Steak,
    ) {
        if prefer_chicken {
            Some(Ingredient::Chicken)
        } else {
            Some(Ingredient::Steak)
        }
    } else {
        find_meat(pool)
    }
}

/// The sauce of a burger made from `pool`, if it gets one.
pub fn choose_sauce(pool: &Vec<Ingredient>, wants_sauce: bool, prefer_ketchup: bool) -> (sauce:
    Option<Ingredient>)
    ensures
        sauce == chosen_sauce(pool@, wants_sauce, prefer_ketchup),
        sauce matches Some(chosen) ==> chosen.is_sauce() && pool@.contains(chosen),
{
    let possible_ketchup = contains_ingredient(pool, Ingredient::Ketchup);
    let possible_mayo = contains_ingredient(pool, Ingredient::Mayo);
    if !(wants_sauce && (possible_ketchup || possible_mayo)) {
        None
    } else if !possible_mayo || (possible_ketchup && prefer_ketchup) {
        Some(Ingredient::Ketchup)
    } else {
        Some(Ingredient::Mayo)
    }
}

/// The weights by which the number of drawn ingredients is chosen: one for
/// none, two for one, and so on up to the most that can be drawn.
pub fn ingredient_count_weights(candidates: usize, sauce: bool) -> (weights: Vec<usize>)
    ensures
        weights@.len() == most_ingredients(candidates as nat, sauce) + 1,
        forall|k: int| 0 <= k < weights@.len() ==> weights@[k] == k + 1,
        0 < total_weight(weights@) <= usize::MAX,
{
    let max_nb_ingredients: usize = MAX_SIZE_OF_BURGER - 2 - 1 - if sauce {
        1
    } else {
        0
    };
    let most: usize = if candidates < max_nb_ingredients {
        candidates
    } else {
        max_nb_ingredients
    };
    linear_weights(most + 1)
}

/// Whether a filling of `filling_len` ingredients gets one more patty: when
/// the one-in-ten roll was lucky, and the filling is still short of what a
/// burger holds between its bread.
pub fn takes_extra_patty(lucky: bool, filling_len: usize) -> (extra: bool)
    ensures
        extra == (lucky && filling_len < MAX_SIZE_OF_BURGER - 2),
{
    lucky && filling_len < MAX_SIZE_OF_BURGER - 2
}

/// Puts a filling and its sauce between two slices of bread.
pub fn wrap_order(filling: Vec<Ingredient>, sauce: Option<Ingredient>) -> (order: Vec<Ingredient>)
    ensures
        order@ == wrapped(filling@, sauce),
{
    let mut order = filling;
    if let Some(chosen) = sauce {
        order.push(chosen);
    }
    order.insert(0, Ingredient::Bread);
    order.push(Ingredient::Bread);
    assert(order@ =~= wrapped(filling@, sauce));
    order
}

impl Menu {
    /// Makes up one order from the ingredients on display.
    ///
    /// The order is refused exactly when `ingredients` shows no patty.
    /// Otherwise it is one of the burgers that `is_order_from` describes:
    /// which one is left to chance.
    pub fn generate_order(&self, ingredients: &Vec<Ingredient>) -> (result: Result<
        Vec<Ingredient>,
        OrderError,
    >)
        ensures
            result is Ok <==> has_meat(ingredients@),
            result matches Ok(order) ==> is_order_from(ingredients@, order@),
            result matches Err(error) ==> error == OrderError::NoMeat,
    {
        broadcast use {to_multiset_build, to_multiset_len};

        // A coin decides between the patties when there is a choice.
        let meat = match choose_meat(ingredients, chance::coin_flip()) {
            Some(chosen) => chosen,
            None => {
                return Err(OrderError::NoMeat);
            },
        };
        let sauce = choose_sauce(ingredients, chance::coin_flip(), chance::coin_flip());

        // The larger the number of ingredients, the likelier it is drawn.
        let candidates = filling_candidates(ingredients, meat);
        let weights = ingredient_count_weights(candidates.len(), sauce.is_some());
        let nb = chance::weighted_index(&weights);
        let mut recipe = chance::pick_several(&candidates, nb);
        let ghost picked = recipe@;

        // The patty that every burger has, somewhere in the filling.
        recipe.push(meat);
        chance::shuffle(&mut recipe);

        // Once in ten burgers one more patty, if there is room.
        let extra_patty = takes_extra_patty(chance::one_chance_in(1, 10), recipe.len());
        if extra_patty {
            recipe.push(meat);
            chance::shuffle(&mut recipe);
        }
        let ghost filling = recipe@;

        let order = wrap_order(recipe, sauce);
        proof {
            let draws = OrderDraws { meat, picked, extra_patty, sauce };
            assert(order@.subrange(1, 1 + draws.filling_len() as int) =~= filling);
            assert(draws.allowed_by(ingredients@));
            assert(draws.yields(order@));
        }
        Ok(order)
    }

    /// The ingredients a session starts with: bread, a patty and one of
    /// salad, ketchup and cheese, each left to chance; in madness mode
    /// further ingredients, no two alike, until there are `MENU_SIZE`.
    pub fn basic_ingredients(&self, madness_mode: bool) -> (seed: Vec<Ingredient>)
        ensures
            is_basic_menu(*self, madness_mode, seed@),
    {
        let ingredients_nb: usize = if madness_mode {
            MENU_SIZE
        } else {
            1
        };
        let mut ingredients: Vec<Ingredient> = vec![Ingredient::Bread];
        ingredients.push(
            if chance::coin_flip() {
                Ingredient::Steak
            } else {
                Ingredient::Chicken
            },
        );
        let extras: Vec<Ingredient> = vec![
            Ingredient::Salad,
            Ingredient::Ketchup,
            Ingredient::Cheese,
        ];
        let additional_ingredient = chance::pick_one(&extras).unwrap();
        ingredients.push(additional_ingredient);
        let all = self.ingredients();
        proof {
            self.lemma_catalog();
        }
        while ingredients.len() < ingredients_nb
            invariant
                3 <= ingredients@.len() <= MENU_SIZE,
                !madness_mode ==> ingredients@.len() == 3,
                ingredients_nb == if madness_mode {
                    MENU_SIZE
                } else {
                    1
                },
                all@ == self.catalog(),
                all@.len() == 14,
                all@.no_duplicates(),
                ingredients@[0] == Ingredient::Bread,
                ingredients@[1].is_meat(),
                ingredients@[2] == Ingredient::Salad || ingredients@[2] == Ingredient::Ketchup
                    || ingredients@[2] == Ingredient::Cheese,
                forall|k: int|
                    3 <= k < ingredients@.len() ==> all@.contains(#[trigger] ingredients@[k]),
                ingredients@.no_duplicates(),
            decreases MENU_SIZE - ingredients@.len(),
        {
            let fresh = ingredients_not_among(&all, &ingredients);
            proof {
                lemma_some_ingredient_left(all@, ingredients@);
            }
            let ingredient = chance::pick_one(&fresh).unwrap();
            proof {
                lemma_not_among(all@, ingredients@, ingredient);
            }
            ingredients.push(ingredient);
        }
        ingredients
    }
}

} // verus!

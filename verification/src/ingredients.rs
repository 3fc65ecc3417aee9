//! The ingredient catalog: every kind of ingredient with its key, its name,
//! its place in the sprite atlas and the sound it makes.

use vstd::prelude::*;
use vstd::seq_lib::*;
use vstd::set_lib::*;

use crate::audio::SFX;

verus! {

/// One kind of ingredient.
#[derive(Clone, Copy, PartialEq, Eq, Hash, Debug, Structural)]
pub enum Ingredient {
    Bread,
    Steak,
    Tomato,
    Salad,
    Egg,
    Pickles,
    Avocado,
    Cheese,
    Bacon,
    Jalapeno,
    Chicken,
    Mushrooms,
    Onions,
    Mayo,
    Ketchup,
}

impl Ingredient {
    /// Whether this ingredient is one of the two patties.
    pub open spec fn spec_is_meat(&self) -> bool {
        *self == Ingredient::Steak || *self == Ingredient::Chicken
    }

    /// Whether this ingredient is one of the two sauces.
    pub open spec fn is_sauce(&self) -> bool {
        *self == Ingredient::Mayo || *self == Ingredient::Ketchup
    }

    /// Whether this ingredient is picked freely when an order is filled:
    /// neither bread, nor a patty, nor a sauce.
    pub open spec fn is_ordinary(&self) -> bool {
        *self != Ingredient::Bread && !self.spec_is_meat() && !self.is_sauce()
    }

    #[verifier::when_used_as_spec(spec_is_meat)]
    pub fn is_meat(&self) -> (meat: bool)
        ensures
            meat == self.spec_is_meat(),
    {
        match self {
            Ingredient::Steak | Ingredient::Chicken => true,
            _ => false,
        }
    }

    /// The key that puts this ingredient on the burger.
    pub open spec fn spec_key(&self) -> char {
        match self {
            Ingredient::Bread => 'b',
            Ingredient::Steak => 's',
            Ingredient::Salad => 'l',
            Ingredient::Tomato => 't',
            Ingredient::Egg => 'e',
            Ingredient::Pickles => 'p',
            Ingredient::Avocado => 'v',
            Ingredient::Cheese => 'c',
            Ingredient::Bacon => 'a',
            Ingredient::Jalapeno => 'j',
            Ingredient::Chicken => 'k',
            Ingredient::Mushrooms => 'h',
            Ingredient::Onions => 'o',
            Ingredient::Mayo => 'y',
            Ingredient::Ketchup => 'u',
        }
    }

    /// The ingredient that `key` stands for, if it stands for one.
    pub open spec fn spec_from_key(key: char) -> Option<Ingredient> {
        match key {
            'b' => Some(Ingredient::Bread),
            's' => Some(Ingredient::Steak),
            'l' => Some(Ingredient::Salad),
            't' => Some(Ingredient::Tomato),
            'e' => Some(Ingredient::Egg),
            'p' => Some(Ingredient::Pickles),
            'v' => Some(Ingredient::Avocado),
            'c' => Some(Ingredient::Cheese),
            'a' => Some(Ingredient::Bacon),
            'j' => Some(Ingredient::Jalapeno),
            'k' => Some(Ingredient::Chicken),
            'h' => Some(Ingredient::Mushrooms),
            'o' => Some(Ingredient::Onions),
            'y' => Some(Ingredient::Mayo),
            'u' => Some(Ingredient::Ketchup),
            _ => None,
        }
    }

    /// Where this ingredient is drawn in the sprite atlas. Bread has two
    /// pictures, the bottom slice for the first place of a burger and the
    /// top slice for every other place.
    pub open spec fn spec_atlas_key(&self, first: bool) -> usize {
        match self {
            Ingredient::Bread => if first {
                0
            } else {
                1
            },
            Ingredient::Steak => 2,
            Ingredient::Tomato => 3,
            Ingredient::Salad => 4,
            Ingredient::Egg => 5,
            Ingredient::Pickles => 6,
            Ingredient::Avocado => 7,
            Ingredient::Cheese => 8,
            Ingredient::Bacon => 9,
            Ingredient::Jalapeno => 10,
            Ingredient::Chicken => 11,
            Ingredient::Mushrooms => 12,
            Ingredient::Onions => 13,
            Ingredient::Mayo => 14,
            Ingredient::Ketchup => 15,
        }
    }

    /// The name this ingredient goes by on the board.
    pub open spec fn spec_name(&self) -> Seq<char> {
        match self {
            Ingredient::Bread => "Bread"@,
            Ingredient::Steak => "Steak"@,
            Ingredient::Salad => "Lettuce"@,
            Ingredient::Tomato => "Tomato"@,
            Ingredient::Egg => "Egg"@,
            Ingredient::Pickles => "Pickles"@,
            Ingredient::Avocado => "Avocado"@,
            Ingredient::Cheese => "Cheese"@,
            Ingredient::Bacon => "Bacon"@,
            Ingredient::Jalapeno => "Jalape??os"@,
            Ingredient::Chicken => "Chicken"@,
            Ingredient::Mushrooms => "Mushrooms"@,
            Ingredient::Onions => "Onions"@,
            Ingredient::Mayo => "Mayo"@,
            Ingredient::Ketchup => "Ketchup"@,
        }
    }

    /// The sound this ingredient makes when it lands on the burger.
    pub open spec fn spec_sfx(&self) -> SFX {
        match self {
            Ingredient::Bread => SFX::Bread,
            Ingredient::Steak => SFX::Meat,
            Ingredient::Tomato => SFX::Vegetable,
            Ingredient::Salad => SFX::Lettuce,
            Ingredient::Egg => SFX::Vegetable,
            Ingredient::Pickles => SFX::Vegetable,
            Ingredient::Avocado => SFX::Vegetable,
            Ingredient::Cheese => SFX::Sauce,
            Ingredient::Bacon => SFX::Meat,
            Ingredient::Jalapeno => SFX::Vegetable,
            Ingredient::Chicken => SFX::Meat,
            Ingredient::Mushrooms => SFX::Vegetable,
            Ingredient::Onions => SFX::Vegetable,
            Ingredient::Mayo => SFX::Sauce,
            Ingredient::Ketchup => SFX::Sauce,
        }
    }

    /// The ingredient that `key` stands for, if it stands for one.
    pub fn from_key(key: &char) -> (ingredient: Option<Self>)
        ensures
            ingredient == Self::spec_from_key(*key),
    {
        match *key {
            'b' => Some(Self::Bread),
            's' => Some(Self::Steak),
            'l' => Some(Self::Salad),
            't' => Some(Self::Tomato),
            'e' => Some(Self::Egg),
            'p' => Some(Self::Pickles),
            'v' => Some(Self::Avocado),
            'c' => Some(Self::Cheese),
            'a' => Some(Self::Bacon),
            'j' => Some(Self::Jalapeno),
            'k' => Some(Self::Chicken),
            'h' => Some(Self::Mushrooms),
            'o' => Some(Self::Onions),
            'y' => Some(Self::Mayo),
            'u' => Some(Self::Ketchup),
            _ => None,
        }
    }

    /// Where this ingredient is drawn in the sprite atlas; `first` says
    /// whether it lies at the bottom of the burger.
    #[verifier::when_used_as_spec(spec_atlas_key)]
    pub fn atlas_key(&self, first: bool) -> (index: usize)
        ensures
            index == self.spec_atlas_key(first),
    {
        match (self, first) {
            (Ingredient::Bread, true) => 0,
            (Ingredient::Bread, false) => 1,
            (Ingredient::Steak, _) => 2,
            (Ingredient::Tomato, _) => 3,
            (Ingredient::Salad, _) => 4,
            (Ingredient::Egg, _) => 5,
            (Ingredient::Pickles, _) => 6,
            (Ingredient::Avocado, _) => 7,
            (Ingredient::Cheese, _) => 8,
            (Ingredient::Bacon, _) => 9,
            (Ingredient::Jalapeno, _) => 10,
            (Ingredient::Chicken, _) => 11,
            (Ingredient::Mushrooms, _) => 12,
            (Ingredient::Onions, _) => 13,
            (Ingredient::Mayo, _) => 14,
            (Ingredient::Ketchup, _) => 15,
        }
    }

    /// The key that puts this ingredient on the burger.
    #[verifier::when_used_as_spec(spec_key)]
    pub fn key(&self) -> (key: char)
        ensures
            key == self.spec_key(),
    {
        match self {
            Ingredient::Bread => 'b',
            Ingredient::Steak => 's',
            Ingredient::Salad => 'l',
            Ingredient::Tomato => 't',
            Ingredient::Egg => 'e',
            Ingredient::Pickles => 'p',
            Ingredient::Avocado => 'v',
            Ingredient::Cheese => 'c',
            Ingredient::Bacon => 'a',
            Ingredient::Jalapeno => 'j',
            Ingredient::Chicken => 'k',
            Ingredient::Mushrooms => 'h',
            Ingredient::Onions => 'o',
            Ingredient::Mayo => 'y',
            Ingredient::Ketchup => 'u',
        }
    }

    /// The name this ingredient goes by on the board.
    pub fn name(&self) -> (name: String)
        ensures
            name@ == self.spec_name(),
    {
        match self {
            Ingredient::Bread => "Bread",
            Ingredient::Steak => "Steak",
            Ingredient::Salad => "Lettuce",
            Ingredient::Tomato => "Tomato",
            Ingredient::Egg => "Egg",
            Ingredient::Pickles => "Pickles",
            Ingredient::Avocado => "Avocado",
            Ingredient::Cheese => "Cheese",
            Ingredient::Bacon => "Bacon",
            Ingredient::Jalapeno => "Jalape??os",
            Ingredient::Chicken => "Chicken",
            Ingredient::Mushrooms => "Mushrooms",
            Ingredient::Onions => "Onions",
            Ingredient::Mayo => "Mayo",
            Ingredient::Ketchup => "Ketchup",
        }.to_string()
    }

    /// The sound this ingredient makes when it lands on the burger.
    #[verifier::when_used_as_spec(spec_sfx)]
    pub fn sfx(&self) -> (sound: SFX)
        ensures
            sound == self.spec_sfx(),
    {
        match self {
            Ingredient::Bread => SFX::Bread,
            Ingredient::Steak => SFX::Meat,
            Ingredient::Tomato => SFX::Vegetable,
            Ingredient::Salad => SFX::Lettuce,
            Ingredient::Egg => SFX::Vegetable,
            Ingredient::Pickles => SFX::Vegetable,
            Ingredient::Avocado => SFX::Vegetable,
            Ingredient::Cheese => SFX::Sauce,
            Ingredient::Bacon => SFX::Meat,
            Ingredient::Jalapeno => SFX::Vegetable,
            Ingredient::Chicken => SFX::Meat,
            Ingredient::Mushrooms => SFX::Vegetable,
            Ingredient::Onions => SFX::Vegetable,
            Ingredient::Mayo => SFX::Sauce,
            Ingredient::Ketchup => SFX::Sauce,
        }
    }

    /// Every ingredient has a key of its own: the key leads back to it.
    pub proof fn lemma_key_round_trip(self)
        ensures
            Self::spec_from_key(self.spec_key()) == Some(self),
    {
    }

    /// A key that stands for an ingredient is that ingredient's key.
    pub proof fn lemma_from_key_round_trip(key: char)
        ensures
            Self::spec_from_key(key) matches Some(ingredient) ==> ingredient.spec_key() == key,
    {
    }
}

/// A menu: the ingredients a kitchen can ever put on display.
#[derive(Clone, Copy, PartialEq, Eq, Debug, Structural)]
pub enum Menu {
    Uno,
}

impl Menu {
    /// Everything this menu offers besides bread, in catalog order.
    pub open spec fn catalog(&self) -> Seq<Ingredient> {
        seq![
            Ingredient::Steak,
            Ingredient::Salad,
            Ingredient::Tomato,
            Ingredient::Egg,
            Ingredient::Pickles,
            Ingredient::Avocado,
            Ingredient::Cheese,
            Ingredient::Bacon,
            Ingredient::Jalapeno,
            Ingredient::Chicken,
            Ingredient::Mushrooms,
            Ingredient::Onions,
            Ingredient::Mayo,
            Ingredient::Ketchup,
        ]
    }

    /// What this menu is called.
    pub fn name(&self) -> (name: &'static str)
        ensures
            name@ == "Menu Uno"@,
    {
        match self {
            Menu::Uno => "Menu Uno",
        }
    }

    /// Everything this menu offers besides bread.
    pub fn ingredients(&self) -> (all: Vec<Ingredient>)
        ensures
            all@ == self.catalog(),
    {
        let all = vec![
            Ingredient::Steak,
            Ingredient::Salad,
            Ingredient::Tomato,
            Ingredient::Egg,
            Ingredient::Pickles,
            Ingredient::Avocado,
            Ingredient::Cheese,
            Ingredient::Bacon,
            Ingredient::Jalapeno,
            Ingredient::Chicken,
            Ingredient::Mushrooms,
            Ingredient::Onions,
            Ingredient::Mayo,
            Ingredient::Ketchup,
        ];
        assert(all@ =~= self.catalog());
        all
    }
}

/// The entries of `all` that `shown` does not hold, in their order.
pub open spec fn not_among(all: Seq<Ingredient>, shown: Seq<Ingredient>) -> Seq<Ingredient> {
    all.filter(|i: Ingredient| !shown.contains(i))
}

/// The entries of `all` that `shown` does not hold, in their order.
pub fn ingredients_not_among(all: &Vec<Ingredient>, shown: &Vec<Ingredient>) -> (missing: Vec<
    Ingredient,
>)
    ensures
        missing@ == not_among(all@, shown@),
{
    let mut missing: Vec<Ingredient> = Vec::new();
    let mut at: usize = 0;
    assert(all@.subrange(0, 0) =~= Seq::<Ingredient>::empty());
    assert(not_among(Seq::<Ingredient>::empty(), shown@) =~= Seq::<Ingredient>::empty()) by {
        reveal(Seq::filter);
    }
    while at < all.len()
        invariant
            at <= all@.len(),
            missing@ == not_among(all@.subrange(0, at as int), shown@),
        decreases all@.len() - at,
    {
        let item = all[at];
        proof {
            let seen = all@.subrange(0, at as int);
            assert(all@.subrange(0, at + 1) =~= seen.push(item));
            seen.lemma_filter_push(item, |i: Ingredient| !shown@.contains(i));
        }
        if !contains_ingredient(shown, item) {
            missing.push(item);
        }
        at += 1;
    }
    assert(all@.subrange(0, at as int) =~= all@);
    missing
}

/// Whether `item` occurs in `list`.
pub fn contains_ingredient(list: &Vec<Ingredient>, item: Ingredient) -> (found: bool)
    ensures
        found == list@.contains(item),
{
    let mut at: usize = 0;
    while at < list.len()
        invariant
            at <= list@.len(),
            forall|k: int| 0 <= k < at ==> list@[k] != item,
        decreases list@.len() - at,
    {
        if list[at] == item {
            return true;
        }
        at += 1;
    }
    false
}

/// What `not_among` keeps: exactly the entries of `all` that `shown` lacks.
pub proof fn lemma_not_among(all: Seq<Ingredient>, shown: Seq<Ingredient>, item: Ingredient)
    ensures
        not_among(all, shown).contains(item) <==> all.contains(item) && !shown.contains(item),
{
    broadcast use {Seq::lemma_filter_pred, Seq::lemma_filter_contains};

    let absent = |i: Ingredient| !shown.contains(i);
    let kept = all.filter(absent);
    if kept.contains(item) {
        let k = choose|k: int| 0 <= k < kept.len() && kept[k] == item;
        assert(absent(kept[k]));
        all.lemma_filter_contains_rev(absent, item);
    }
    if all.contains(item) && !shown.contains(item) {
        let k = choose|k: int| 0 <= k < all.len() && all[k] == item;
        assert(absent(all[k]));
        assert(kept.contains(all[k]));
    }
}

/// A list without repeats that is longer than `shown` has an entry that
/// `shown` lacks.
pub proof fn lemma_some_ingredient_left(all: Seq<Ingredient>, shown: Seq<Ingredient>)
    requires
        all.no_duplicates(),
        shown.len() < all.len(),
    ensures
        not_among(all, shown).len() > 0,
{
    if not_among(all, shown).len() == 0 {
        assert forall|item: Ingredient| all.to_set().contains(item) implies shown.to_set().contains(
            item,
        ) by {
            lemma_not_among(all, shown, item);
        }
        all.unique_seq_to_set();
        shown.lemma_cardinality_of_set();
        lemma_len_subset(all.to_set(), shown.to_set());
    }
}

impl Menu {
    /// No ingredient is listed twice in the catalog, and bread is not
    /// listed at all.
    pub proof fn lemma_catalog(&self)
        ensures
            self.catalog().len() == 14,
            self.catalog().no_duplicates(),
            !self.catalog().contains(Ingredient::Bread),
            forall|item: Ingredient| item != Ingredient::Bread ==> self.catalog().contains(item),
    {
        let all = self.catalog();
        assert forall|item: Ingredient| item != Ingredient::Bread implies all.contains(item) by {
            match item {
                Ingredient::Bread => {},
                Ingredient::Steak => assert(all[0] == item),
                Ingredient::Salad => assert(all[1] == item),
                Ingredient::Tomato => assert(all[2] == item),
                Ingredient::Egg => assert(all[3] == item),
                Ingredient::Pickles => assert(all[4] == item),
                Ingredient::Avocado => assert(all[5] == item),
                Ingredient::Cheese => assert(all[6] == item),
                Ingredient::Bacon => assert(all[7] == item),
                Ingredient::Jalapeno => assert(all[8] == item),
                Ingredient::Chicken => assert(all[9] == item),
                Ingredient::Mushrooms => assert(all[10] == item),
                Ingredient::Onions => assert(all[11] == item),
                Ingredient::Mayo => assert(all[12] == item),
                Ingredient::Ketchup => assert(all[13] == item),
            }
        }
    }
}

} // verus!

use burger_kitchen::ingredients::Ingredient;
use burger_kitchen::ingredients::Menu;
use burger_kitchen::recipe::choose_meat;
use burger_kitchen::recipe::choose_sauce;
use burger_kitchen::recipe::filling_candidates;
use burger_kitchen::recipe::find_meat;
use burger_kitchen::recipe::ingredient_count_weights;
use burger_kitchen::recipe::linear_weights;
use burger_kitchen::recipe::ordinary_ingredients;
use burger_kitchen::recipe::takes_extra_patty;
use burger_kitchen::recipe::wrap_order;
use burger_kitchen::recipe::OrderError;
use burger_kitchen::recipe::MAX_SIZE_OF_BURGER;
use burger_kitchen::restaurant::MENU_SIZE;

fn count(list: &[Ingredient], item: Ingredient) -> usize {
    list.iter().filter(|i| **i == item).count()
}

fn is_ordinary(item: Ingredient) -> bool {
    !matches!(
        item,
        Ingredient::Bread
            | Ingredient::Steak
            | Ingredient::Chicken
            | Ingredient::Mayo
            | Ingredient::Ketchup
    )
}

fn rich_pool() -> Vec<Ingredient> {
    vec![
        Ingredient::Bread,
        Ingredient::Steak,
        Ingredient::Salad,
        Ingredient::Tomato,
        Ingredient::Cheese,
        Ingredient::Ketchup,
        Ingredient::Mayo,
        Ingredient::Chicken,
        Ingredient::Egg,
    ]
}

fn check_order(pool: &[Ingredient], order: &[Ingredient]) {
    assert!(order.len() >= 3);
    assert!(order.len() <= MAX_SIZE_OF_BURGER + 1);
    assert_eq!(order[0], Ingredient::Bread);
    assert_eq!(order[order.len() - 1], Ingredient::Bread);
    assert_eq!(count(order, Ingredient::Bread), 2);

    let steaks = count(order, Ingredient::Steak);
    let chickens = count(order, Ingredient::Chicken);
    assert!(steaks == 0 || chickens == 0);
    let patties = steaks + chickens;
    assert!((1..=3).contains(&patties));
    if steaks > 0 {
        assert!(pool.contains(&Ingredient::Steak));
    } else {
        assert!(pool.contains(&Ingredient::Chicken));
    }

    let sauces = count(order, Ingredient::Mayo) + count(order, Ingredient::Ketchup);
    assert!(sauces <= 1);
    if sauces == 1 {
        let sauce = order[order.len() - 2];
        assert!(sauce == Ingredient::Mayo || sauce == Ingredient::Ketchup);
        assert!(pool.contains(&sauce));
    }

    for item in order {
        if is_ordinary(*item) {
            assert!(count(order, *item) <= 2 * count(pool, *item));
        }
    }
    if order.len() == MAX_SIZE_OF_BURGER + 1 {
        assert_eq!(sauces, 1);
        assert!(patties >= 2);
    }
    if sauces == 0 || patties == 1 {
        assert!(order.len() <= MAX_SIZE_OF_BURGER);
    }
}

#[test]
fn order_is_refused_without_a_patty() {
    let pool = vec![Ingredient::Bread, Ingredient::Salad, Ingredient::Ketchup];
    assert_eq!(Menu::Uno.generate_order(&pool), Err(OrderError::NoMeat));
    assert_eq!(Menu::Uno.generate_order(&vec![]), Err(OrderError::NoMeat));
}

#[test]
fn orders_from_a_rich_menu_keep_the_rules() {
    let pool = rich_pool();
    for _ in 0..5000 {
        let order = Menu::Uno.generate_order(&pool).unwrap();
        check_order(&pool, &order);
    }
}

#[test]
fn orders_from_the_smallest_menu_keep_the_rules() {
    let pool = vec![Ingredient::Bread, Ingredient::Chicken, Ingredient::Salad];
    for _ in 0..2000 {
        let order = Menu::Uno.generate_order(&pool).unwrap();
        check_order(&pool, &order);
        assert_eq!(count(&order, Ingredient::Steak), 0);
        assert!(order.len() <= 2 + 3 + 2);
    }
}

#[test]
fn order_from_a_lone_patty_is_patties_in_bread() {
    let pool = vec![Ingredient::Steak];
    for _ in 0..500 {
        let order = Menu::Uno.generate_order(&pool).unwrap();
        check_order(&pool, &order);
        for item in &order[1..order.len() - 1] {
            assert_eq!(*item, Ingredient::Steak);
        }
    }
}

#[test]
fn orders_without_sauce_on_the_menu_have_none() {
    let pool = vec![
        Ingredient::Bread,
        Ingredient::Steak,
        Ingredient::Salad,
        Ingredient::Tomato,
        Ingredient::Egg,
        Ingredient::Bacon,
    ];
    for _ in 0..3000 {
        let order = Menu::Uno.generate_order(&pool).unwrap();
        check_order(&pool, &order);
        assert!(order.len() <= MAX_SIZE_OF_BURGER);
        assert_eq!(count(&order, Ingredient::Ketchup), 0);
        assert_eq!(count(&order, Ingredient::Mayo), 0);
    }
}

#[test]
fn orders_vary() {
    let pool = rich_pool();
    let first = Menu::Uno.generate_order(&pool).unwrap();
    let mut differs = false;
    let mut both_patties = (false, false);
    let mut sauce = (false, false);
    for _ in 0..2000 {
        let order = Menu::Uno.generate_order(&pool).unwrap();
        differs = differs || order != first;
        both_patties.0 = both_patties.0 || order.contains(&Ingredient::Steak);
        both_patties.1 = both_patties.1 || order.contains(&Ingredient::Chicken);
        let sauced = order.contains(&Ingredient::Mayo) || order.contains(&Ingredient::Ketchup);
        sauce.0 = sauce.0 || sauced;
        sauce.1 = sauce.1 || !sauced;
    }
    assert!(differs);
    assert_eq!(both_patties, (true, true));
    assert_eq!(sauce, (true, true));
}

#[test]
fn sauced_order_with_extra_patty_can_pass_the_nominal_size() {
    let pool = rich_pool();
    let mut longest = 0;
    for _ in 0..20000 {
        let order = Menu::Uno.generate_order(&pool).unwrap();
        longest = longest.max(order.len());
    }
    assert_eq!(longest, MAX_SIZE_OF_BURGER + 1);
}

#[test]
fn first_patty_of_the_menu_is_found() {
    assert_eq!(find_meat(&vec![]), None);
    assert_eq!(find_meat(&vec![Ingredient::Bread, Ingredient::Salad]), None);
    assert_eq!(
        find_meat(&vec![Ingredient::Bread, Ingredient::Chicken, Ingredient::Steak]),
        Some(Ingredient::Chicken)
    );
    assert_eq!(
        find_meat(&vec![Ingredient::Salad, Ingredient::Bacon, Ingredient::Steak]),
        Some(Ingredient::Steak)
    );
}

#[test]
fn special_ingredients_are_sorted_out() {
    assert_eq!(
        ordinary_ingredients(&rich_pool()),
        vec![Ingredient::Salad, Ingredient::Tomato, Ingredient::Cheese, Ingredient::Egg]
    );
    assert_eq!(
        ordinary_ingredients(&vec![Ingredient::Bread, Ingredient::Steak, Ingredient::Mayo]),
        vec![]
    );
}

#[test]
fn filling_is_drawn_from_doubled_ingredients_and_one_patty() {
    let pool = vec![Ingredient::Bread, Ingredient::Steak, Ingredient::Salad, Ingredient::Egg];
    assert_eq!(
        filling_candidates(&pool, Ingredient::Steak),
        vec![
            Ingredient::Salad,
            Ingredient::Egg,
            Ingredient::Salad,
            Ingredient::Egg,
            Ingredient::Steak
        ]
    );
}

#[test]
fn weights_grow_by_one() {
    assert_eq!(linear_weights(0), Vec::<usize>::new());
    assert_eq!(linear_weights(1), vec![1]);
    assert_eq!(linear_weights(8), vec![1, 2, 3, 4, 5, 6, 7, 8]);
}

#[test]
fn basic_ingredients_are_bread_a_patty_and_an_extra() {
    for _ in 0..500 {
        let seed = Menu::Uno.basic_ingredients(false);
        assert_eq!(seed.len(), 3);
        assert_eq!(seed[0], Ingredient::Bread);
        assert!(seed[1] == Ingredient::Steak || seed[1] == Ingredient::Chicken);
        assert!(
            seed[2] == Ingredient::Salad
                || seed[2] == Ingredient::Ketchup
                || seed[2] == Ingredient::Cheese
        );
    }
}

#[test]
fn basic_ingredients_grow_to_the_menu_size_in_madness_mode() {
    let catalog = Menu::Uno.ingredients();
    for _ in 0..500 {
        let seed = Menu::Uno.basic_ingredients(true);
        assert_eq!(seed.len(), MENU_SIZE);
        assert_eq!(seed.len(), 8);
        assert_eq!(seed[0], Ingredient::Bread);
        assert!(seed[1].is_meat());
        assert!(
            seed[2] == Ingredient::Salad
                || seed[2] == Ingredient::Ketchup
                || seed[2] == Ingredient::Cheese
        );
        for (at, ingredient) in seed.iter().enumerate() {
            assert!(!seed[..at].contains(ingredient));
            if at >= 3 {
                assert!(catalog.contains(ingredient));
            }
        }
    }
}

#[test]
fn basic_ingredients_vary() {
    let mut patties = (false, false);
    let mut extras = (false, false, false);
    for _ in 0..500 {
        let seed = Menu::Uno.basic_ingredients(false);
        patties.0 = patties.0 || seed[1] == Ingredient::Steak;
        patties.1 = patties.1 || seed[1] == Ingredient::Chicken;
        extras.0 = extras.0 || seed[2] == Ingredient::Salad;
        extras.1 = extras.1 || seed[2] == Ingredient::Ketchup;
        extras.2 = extras.2 || seed[2] == Ingredient::Cheese;
    }
    assert_eq!(patties, (true, true));
    assert_eq!(extras, (true, true, true));
}

#[test]
fn patty_lands_anywhere_in_the_filling() {
    let pool = vec![Ingredient::Bread, Ingredient::Steak, Ingredient::Salad];
    let mut salad_on_top = false;
    let mut patty_on_top = false;
    for _ in 0..2000 {
        let order = Menu::Uno.generate_order(&pool).unwrap();
        let top = order[order.len() - 2];
        salad_on_top = salad_on_top || top == Ingredient::Salad;
        patty_on_top = patty_on_top || top == Ingredient::Steak;
    }
    assert!(salad_on_top);
    assert!(patty_on_top);
}

#[test]
fn patty_is_a_matter_of_choice_only_between_two() {
    let both = vec![Ingredient::Bread, Ingredient::Steak, Ingredient::Chicken];
    assert_eq!(choose_meat(&both, true), Some(Ingredient::Chicken));
    assert_eq!(choose_meat(&both, false), Some(Ingredient::Steak));
    let steak = vec![Ingredient::Bread, Ingredient::Salad, Ingredient::Steak];
    assert_eq!(choose_meat(&steak, true), Some(Ingredient::Steak));
    assert_eq!(choose_meat(&steak, false), Some(Ingredient::Steak));
    let chicken = vec![Ingredient::Chicken];
    assert_eq!(choose_meat(&chicken, true), Some(Ingredient::Chicken));
    assert_eq!(choose_meat(&chicken, false), Some(Ingredient::Chicken));
    let none = vec![Ingredient::Bread, Ingredient::Bacon];
    assert_eq!(choose_meat(&none, true), None);
    assert_eq!(choose_meat(&none, false), None);
}

#[test]
fn sauce_is_one_the_menu_shows() {
    let both = vec![Ingredient::Steak, Ingredient::Mayo, Ingredient::Ketchup];
    assert_eq!(choose_sauce(&both, true, true), Some(Ingredient::Ketchup));
    assert_eq!(choose_sauce(&both, true, false), Some(Ingredient::Mayo));
    assert_eq!(choose_sauce(&both, false, true), None);
    assert_eq!(choose_sauce(&both, false, false), None);
    let ketchup = vec![Ingredient::Steak, Ingredient::Ketchup];
    assert_eq!(choose_sauce(&ketchup, true, true), Some(Ingredient::Ketchup));
    assert_eq!(choose_sauce(&ketchup, true, false), Some(Ingredient::Ketchup));
    assert_eq!(choose_sauce(&ketchup, false, false), None);
    let mayo = vec![Ingredient::Steak, Ingredient::Mayo];
    assert_eq!(choose_sauce(&mayo, true, true), Some(Ingredient::Mayo));
    assert_eq!(choose_sauce(&mayo, true, false), Some(Ingredient::Mayo));
    let none = vec![Ingredient::Steak, Ingredient::Cheese];
    assert_eq!(choose_sauce(&none, true, true), None);
    assert_eq!(choose_sauce(&none, true, false), None);
}

#[test]
fn count_of_ingredients_is_capped_by_the_room_in_the_burger() {
    assert_eq!(ingredient_count_weights(1, false), vec![1, 2]);
    assert_eq!(ingredient_count_weights(3, true), vec![1, 2, 3, 4]);
    assert_eq!(ingredient_count_weights(6, true), vec![1, 2, 3, 4, 5, 6, 7]);
    assert_eq!(ingredient_count_weights(7, true), vec![1, 2, 3, 4, 5, 6, 7]);
    assert_eq!(ingredient_count_weights(7, false), vec![1, 2, 3, 4, 5, 6, 7, 8]);
    assert_eq!(ingredient_count_weights(25, false), vec![1, 2, 3, 4, 5, 6, 7, 8]);
    assert_eq!(ingredient_count_weights(usize::MAX, true).len(), 7);
}

#[test]
fn filling_is_wrapped_in_bread_with_the_sauce_on_top() {
    let filling = vec![Ingredient::Salad, Ingredient::Steak];
    assert_eq!(
        wrap_order(filling.clone(), None),
        vec![Ingredient::Bread, Ingredient::Salad, Ingredient::Steak, Ingredient::Bread]
    );
    assert_eq!(
        wrap_order(filling, Some(Ingredient::Mayo)),
        vec![
            Ingredient::Bread,
            Ingredient::Salad,
            Ingredient::Steak,
            Ingredient::Mayo,
            Ingredient::Bread
        ]
    );
    assert_eq!(wrap_order(vec![], None), vec![Ingredient::Bread, Ingredient::Bread]);
}

#[test]
fn larger_counts_are_drawn_more_often() {
    // Without an ordinary ingredient the one candidate is a patty, drawn or
    // not with weights 1 and 2: two patties come up about twice as often as
    // one (the rare third one aside).
    let pool = vec![Ingredient::Bread, Ingredient::Steak];
    let mut patties = [0usize; 4];
    for _ in 0..30000 {
        let order = Menu::Uno.generate_order(&pool).unwrap();
        patties[order.len() - 2] += 1;
    }
    assert_eq!(patties[0], 0);
    assert!(patties[1] > 7000 && patties[1] < 11000);
    assert!(patties[2] > 15000 && patties[2] < 21000);
    assert!(patties[3] > 1000 && patties[3] < 3000);
}

#[test]
fn extra_patty_needs_luck_and_room() {
    assert!(takes_extra_patty(true, 1));
    assert!(takes_extra_patty(true, 7));
    assert!(!takes_extra_patty(true, 8));
    assert!(!takes_extra_patty(true, 9));
    assert!(!takes_extra_patty(false, 1));
    assert!(!takes_extra_patty(false, 7));
    assert!(!takes_extra_patty(false, 8));
}

#[test]
fn third_patty_is_rare() {
    let pool = vec![Ingredient::Bread, Ingredient::Steak];
    let mut with_extra = 0;
    for _ in 0..20000 {
        let order = Menu::Uno.generate_order(&pool).unwrap();
        if order.len() == 5 {
            with_extra += 1;
        }
    }
    // three patties take the patty drawn (two times in three) and the
    // lucky roll (one time in ten)
    assert!(with_extra > 700 && with_extra < 2000);
}

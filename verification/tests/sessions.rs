use burger_kitchen::cooking::IngredientAdded;
use burger_kitchen::cooking::IngredientRemoved;
use burger_kitchen::cooking::MadnessMode;
use burger_kitchen::customer::CallNewCustomer;
use burger_kitchen::customer::CustomerExited;
use burger_kitchen::ingredients::Ingredient;
use burger_kitchen::ingredients::Menu;
use burger_kitchen::order::BurgerFinishedEvent;
use burger_kitchen::restaurant::ShowIngredientEvent;
use burger_kitchen::restaurant::ShowOrderEvent;
use burger_kitchen::restaurant::MENU_SIZE;
use burger_kitchen::score::Score;
use burger_kitchen::session::KeyOutcome;
use burger_kitchen::session::Phase;
use burger_kitchen::session::Session;

fn classic() -> Session {
    Session::start(Menu::Uno, MadnessMode(false)).0
}

/// A session whose customer has just ordered at `now`.
fn with_order(now: u64) -> Session {
    let mut session = classic();
    assert!(session.call_new_customer());
    assert_eq!(session.take_order(now), Some(ShowOrderEvent));
    session
}

/// Types the order of the session on its own keys.
fn cook_the_order(session: &mut Session, now: u64) {
    let order = session.order.ingredients.clone();
    for (place, ingredient) in order.iter().enumerate() {
        assert!(session.check_press(ingredient.key(), now));
        assert_eq!(
            session.press_key(ingredient.key(), now),
            KeyOutcome::Added(IngredientAdded { ingredient: *ingredient, position: place })
        );
    }
}

fn fail_once(session: &mut Session) {
    assert!(session.call_new_customer());
    assert!(session.take_order(0).is_some());
    assert!(session.waiting_time_elapsed().is_some());
}

#[test]
fn session_starts_with_a_seeded_board_and_a_fresh_sheet() {
    for _ in 0..100 {
        let (session, shown) = Session::start(Menu::Uno, MadnessMode(false));
        assert_eq!(session.phase, Phase::WaitingForCustomer);
        assert!(!session.is_over());
        assert_eq!(session.score, Score::default());
        assert!(session.current_burger.ingredients.is_empty());
        let board = session.menu_on_display.ingredients();
        assert_eq!(board.len(), 3);
        assert_eq!(board[0], Ingredient::Bread);
        assert!(board[1].is_meat());
        assert_eq!(shown.len(), 3);
        for (place, event) in shown.iter().enumerate() {
            assert_eq!(
                *event,
                ShowIngredientEvent {
                    replace: false,
                    position: place,
                    ingredient: board[place],
                    timer: false,
                }
            );
            assert!(session.menu_on_display.has_seen(board[place]));
        }
    }
}

#[test]
fn madness_session_starts_with_eight_ingredients() {
    let (session, shown) = Session::start(Menu::Uno, MadnessMode(true));
    assert_eq!(session.menu_on_display.ingredients().len(), MENU_SIZE);
    assert_eq!(shown.len(), MENU_SIZE);
    assert_eq!(session.madness_mode, MadnessMode(true));
}

#[test]
fn customer_comes_only_to_a_free_counter() {
    let mut session = classic();
    assert!(session.call_new_customer());
    assert_eq!(session.phase, Phase::CustomerPresentNoOrder);
    assert!(!session.call_new_customer());
    assert_eq!(session.phase, Phase::CustomerPresentNoOrder);
}

#[test]
fn order_is_taken_once_a_customer_is_there() {
    let mut session = classic();
    assert_eq!(session.take_order(5), None);
    assert_eq!(session.phase, Phase::WaitingForCustomer);
    assert!(session.call_new_customer());
    assert_eq!(session.take_order(1234), Some(ShowOrderEvent));
    assert_eq!(session.phase, Phase::OrderDisplayed);
    assert_eq!(session.order.creation_time, 1234);
    let order = session.order.ingredients.clone();
    assert_eq!(order[0], Ingredient::Bread);
    assert_eq!(order[order.len() - 1], Ingredient::Bread);
    assert_eq!(session.take_order(2000), None);
    assert_eq!(session.order.ingredients, order);
    assert_eq!(session.order.creation_time, 1234);
}

#[test]
fn order_cooked_key_by_key_and_sent_is_correct() {
    for _ in 0..200 {
        let mut session = with_order(1000);
        cook_the_order(&mut session, 1500);
        let size = session.order.ingredients.len();
        assert!(session.check_press(' ', 3000));
        assert_eq!(
            session.press_key(' ', 3000),
            KeyOutcome::Sent(BurgerFinishedEvent { correct: true, size, out_of_time: false })
        );
        assert_eq!(session.phase, Phase::OrderResolved);
        assert!(session.current_burger.ingredients.is_empty());
        assert_eq!(session.score.streak, 1);
        assert_eq!(session.score.lives, 5);
        // 3 + 1.5 * size - 2 seconds are left; halves round up
        let left = 1000 + 1500 * size as i64;
        assert_eq!(session.score.score, (left + 500) / 1000);
    }
}

#[test]
fn wrong_burger_costs_a_life() {
    let mut session = with_order(1000);
    assert_eq!(
        session.press_key('b', 1200),
        KeyOutcome::Added(IngredientAdded { ingredient: Ingredient::Bread, position: 0 })
    );
    assert!(session.check_press(' ', 1300));
    assert_eq!(
        session.press_key(' ', 1300),
        KeyOutcome::Sent(BurgerFinishedEvent { correct: false, size: 1, out_of_time: false })
    );
    assert_eq!(session.phase, Phase::OrderResolved);
    assert_eq!(session.score, Score { score: 0, streak: 0, lives: 4 });
    assert!(session.current_burger.ingredients.is_empty());
}

#[test]
fn order_in_another_arrangement_is_wrong() {
    for _ in 0..50 {
        let mut session = with_order(0);
        let mut burger = session.order.ingredients.clone();
        burger.reverse();
        burger.swap(0, 1);
        if burger == session.order.ingredients {
            continue;
        }
        for ingredient in &burger {
            session.press_key(ingredient.key(), 10);
        }
        assert_eq!(session.current_burger.ingredients, burger);
        assert_eq!(
            session.press_key(' ', 20),
            KeyOutcome::Sent(BurgerFinishedEvent {
                correct: false,
                size: burger.len(),
                out_of_time: false,
            })
        );
    }
}

#[test]
fn empty_plate_is_not_sent_by_a_session() {
    let mut session = with_order(1000);
    assert_eq!(session.press_key(' ', 1100), KeyOutcome::Ignored);
    assert_eq!(session.phase, Phase::OrderDisplayed);
    assert_eq!(session.score, Score::default());
}

#[test]
fn burger_is_not_sent_without_an_order() {
    let mut session = classic();
    session.press_key('b', 5);
    assert_eq!(session.press_key(' ', 10), KeyOutcome::Ignored);
    assert_eq!(session.current_burger.ingredients, vec![Ingredient::Bread]);
    assert_eq!(session.phase, Phase::WaitingForCustomer);
}

#[test]
fn delete_key_takes_the_last_ingredient_off_the_burger_of_a_session() {
    let mut session = with_order(1000);
    let patty = session.menu_on_display.ingredients()[1];
    session.press_key('b', 1100);
    session.press_key(patty.key(), 1150);
    assert_eq!(
        session.press_key('<', 1200),
        KeyOutcome::Removed(IngredientRemoved { ingredient: patty, position: 1 })
    );
    assert_eq!(session.current_burger.ingredients, vec![Ingredient::Bread]);
    assert_eq!(session.phase, Phase::OrderDisplayed);
    assert_eq!(session.score, Score::default());
    assert_eq!(
        session.press_key('<', 1300),
        KeyOutcome::Removed(IngredientRemoved { ingredient: Ingredient::Bread, position: 0 })
    );
    assert!(session.current_burger.ingredients.is_empty());
    assert_eq!(session.press_key('<', 1400), KeyOutcome::Ignored);
    assert!(session.current_burger.ingredients.is_empty());
}

#[test]
fn order_mended_with_the_delete_key_is_correct() {
    let mut session = with_order(0);
    let order = session.order.ingredients.clone();
    let patty = session.menu_on_display.ingredients()[1];
    session.press_key('b', 10);
    session.press_key('b', 20);
    session.press_key('<', 30);
    for ingredient in &order[1..] {
        session.press_key(ingredient.key(), 40);
    }
    session.press_key(patty.key(), 50);
    session.press_key('<', 60);
    assert_eq!(session.current_burger.ingredients, order);
    assert!(session.check_press(' ', 70));
    assert_eq!(
        session.press_key(' ', 70),
        KeyOutcome::Sent(BurgerFinishedEvent { correct: true, size: order.len(), out_of_time: false })
    );
}

#[test]
fn unknown_and_unseen_keys_are_ignored_by_a_session() {
    let mut session = classic();
    let board = session.menu_on_display.ingredients().clone();
    let unseen = Menu::Uno.ingredients().into_iter().find(|i| !board.contains(i)).unwrap();
    assert_eq!(session.press_key(unseen.key(), 0), KeyOutcome::Ignored);
    assert_eq!(session.press_key('x', 0), KeyOutcome::Ignored);
    assert!(session.current_burger.ingredients.is_empty());
}

#[test]
fn patience_running_out_costs_a_life() {
    let mut session = with_order(1000);
    session.press_key('b', 1100);
    assert_eq!(
        session.waiting_time_elapsed(),
        Some(BurgerFinishedEvent { correct: false, size: 1, out_of_time: true })
    );
    assert_eq!(session.phase, Phase::OrderResolved);
    assert_eq!(session.score, Score { score: 0, streak: 0, lives: 4 });
    assert!(session.current_burger.ingredients.is_empty());
    assert_eq!(session.waiting_time_elapsed(), None);
    assert_eq!(session.score.lives, 4);
}

#[test]
fn patience_cannot_run_out_without_an_order() {
    let mut session = classic();
    assert_eq!(session.waiting_time_elapsed(), None);
    assert!(session.call_new_customer());
    assert_eq!(session.waiting_time_elapsed(), None);
    assert_eq!(session.score, Score::default());
}

#[test]
fn next_customer_is_called_when_the_last_one_left() {
    let mut session = with_order(0);
    assert_eq!(session.customer_exited(None), None);
    session.waiting_time_elapsed();
    assert_eq!(
        session.customer_exited(None),
        Some(CustomerExited::NextCustomer(CallNewCustomer))
    );
    assert_eq!(session.phase, Phase::WaitingForCustomer);
    assert_eq!(session.customer_exited(None), None);
}

#[test]
fn five_wrong_orders_end_the_session() {
    let mut session = classic();
    for left in [4, 3, 2, 1] {
        fail_once(&mut session);
        assert_eq!(session.score.lives, left);
        assert_eq!(
            session.customer_exited(Some(3)),
            Some(CustomerExited::NextCustomer(CallNewCustomer))
        );
        assert!(!session.is_over());
    }
    fail_once(&mut session);
    assert_eq!(session.score.lives, 0);
    assert!(!session.is_over());
    assert_eq!(session.customer_exited(Some(3)), Some(CustomerExited::GameOver { best: 3 }));
    assert!(session.is_over());
    assert_eq!(session.phase, Phase::SessionOver);
}

#[test]
fn right_orders_in_between_cost_no_life() {
    let mut session = classic();
    let mut failures = 0;
    let mut round = 0;
    while !session.is_over() {
        assert!(session.call_new_customer());
        assert!(session.take_order(0).is_some());
        if round % 3 == 0 {
            session.waiting_time_elapsed();
            failures += 1;
        } else {
            cook_the_order(&mut session, 10);
            assert!(session.check_press(' ', 20));
            session.press_key(' ', 20);
        }
        assert_eq!(session.score.lives, 5 - failures);
        assert!(session.score.lives >= 0);
        session.customer_exited(None);
        round += 1;
    }
    assert_eq!(failures, 5);
    assert_eq!(session.score.lives, 0);
}

#[test]
fn finished_session_stays_finished() {
    let mut session = classic();
    for _ in 0..5 {
        fail_once(&mut session);
        session.customer_exited(None);
    }
    assert!(session.is_over());
    assert!(!session.call_new_customer());
    assert_eq!(session.take_order(0), None);
    assert_eq!(session.waiting_time_elapsed(), None);
    assert_eq!(session.customer_exited(None), None);
    assert_eq!(session.tick_menu(60_000), None);
    assert_eq!(session.score.lives, 0);
    assert!(session.is_over());
}

#[test]
fn best_score_of_a_session_beats_a_lower_record() {
    let mut session = with_order(0);
    cook_the_order(&mut session, 10);
    session.press_key(' ', 20);
    let won = session.score.score;
    assert!(won > 0);
    session.customer_exited(None);
    for _ in 0..5 {
        fail_once(&mut session);
        if session.score.lives > 0 {
            session.customer_exited(None);
        }
    }
    assert_eq!(session.customer_exited(Some(1)), Some(CustomerExited::GameOver { best: won }));
}

#[test]
fn board_grows_every_ten_seconds() {
    let mut session = classic();
    assert_eq!(session.tick_menu(9_000), None);
    let before = session.menu_on_display.ingredients().clone();
    let shown = session.tick_menu(1_000).unwrap();
    assert!(shown.timer);
    assert!(!shown.replace);
    assert_eq!(shown.position, 3);
    assert!(!before.contains(&shown.ingredient));
    let mut expected = before.clone();
    expected.push(shown.ingredient);
    assert_eq!(session.menu_on_display.ingredients(), &expected);
    assert!(session.menu_on_display.has_seen(shown.ingredient));
}

#[test]
fn board_of_a_long_session_keeps_bread_and_the_first_patty() {
    for _ in 0..20 {
        let mut session = classic();
        let first = session.menu_on_display.ingredients()[..2].to_vec();
        for tick in 0..200 {
            let before = session.menu_on_display.ingredients().clone();
            let shown = session.tick_menu(10_000).unwrap();
            let board = session.menu_on_display.ingredients();
            assert_eq!(shown.replace, tick >= 6);
            assert!(board.len() <= MENU_SIZE + 1);
            assert_eq!(board[..2], first[..]);
            assert!(!before.contains(&shown.ingredient));
            assert_eq!(board[shown.position], shown.ingredient);
            if shown.replace {
                assert!((2..MENU_SIZE).contains(&shown.position));
                let patties = before.iter().filter(|i| i.is_meat()).count();
                if patties < 2 && !shown.ingredient.is_meat() {
                    assert!(!before[shown.position].is_meat());
                }
            }
            for (place, ingredient) in before.iter().enumerate() {
                assert!(session.menu_on_display.has_seen(*ingredient));
                if place != shown.position || !shown.replace {
                    assert_eq!(board[place], *ingredient);
                }
            }
        }
    }
}

#[test]
fn ingredient_that_left_the_board_can_still_be_cooked() {
    let mut session = classic();
    let mut gone = None;
    for _ in 0..200 {
        let before = session.menu_on_display.ingredients().clone();
        let shown = session.tick_menu(10_000).unwrap();
        if shown.replace {
            gone = Some(before[shown.position]);
            break;
        }
    }
    let gone = gone.unwrap();
    assert!(!session.menu_on_display.ingredients().contains(&gone));
    assert_eq!(
        session.press_key(gone.key(), 0),
        KeyOutcome::Added(IngredientAdded { ingredient: gone, position: 0 })
    );
}

#[test]
fn press_that_cannot_be_booked_is_told_apart() {
    let mut session = with_order(1000);
    cook_the_order(&mut session, 1000);
    // the clock behind the order
    assert!(!session.check_press(' ', 999));
    assert!(session.check_press(' ', 1000));
    session.score.score = i64::MAX;
    assert!(!session.check_press(' ', 1000));
    assert!(session.check_press('<', 1000));
    assert!(session.check_press('b', 1000));
}

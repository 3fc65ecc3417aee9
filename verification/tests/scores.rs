use burger_kitchen::score::LifeIcon;
use burger_kitchen::score::Score;
use burger_kitchen::score::EXTRA_TIME_PER_BURGER_MS;
use burger_kitchen::score::STARTING_LIVES;
use burger_kitchen::score::TIME_PER_INGREDIENT_MS;

fn sheet(score: i64, streak: i64, lives: i32) -> Score {
    Score { score, streak, lives }
}

#[test]
fn fresh_sheet_has_five_lives_and_nothing_else() {
    assert_eq!(Score::default(), sheet(0, 0, 5));
    assert_eq!(STARTING_LIVES, 5);
    assert_eq!(EXTRA_TIME_PER_BURGER_MS, 3000);
    assert_eq!(TIME_PER_INGREDIENT_MS, 1500);
}

#[test]
fn first_right_order_two_seconds_in_wins_six_points() {
    let mut score = Score::default();
    assert!(score.fits_success(2000, 3));
    score.compute_on_success(2000, 3);
    assert_eq!(score, sheet(6, 1, 5));
}

#[test]
fn points_are_multiplied_by_the_streak() {
    let mut score = sheet(6, 1, 5);
    score.compute_on_success(2000, 3);
    // 2 * 5.5 = 11
    assert_eq!(score, sheet(17, 2, 5));
    score.compute_on_success(7000, 3);
    // 3 * 0.5 = 1.5, rounded away from zero
    assert_eq!(score, sheet(19, 3, 5));
}

#[test]
fn half_points_round_away_from_zero() {
    let mut early = Score::default();
    early.compute_on_success(7000, 3);
    assert_eq!(early.score, 1);
    let mut late = Score::default();
    late.compute_on_success(8000, 3);
    assert_eq!(late.score, -1);
    let mut nearly = Score::default();
    nearly.compute_on_success(7001, 3);
    assert_eq!(nearly.score, 0);
    let mut hardly = Score::default();
    hardly.compute_on_success(7999, 3);
    assert_eq!(hardly.score, 0);
}

#[test]
fn late_right_order_loses_points_and_still_counts_for_the_streak() {
    let mut score = sheet(10, 2, 4);
    score.compute_on_success(13000, 3);
    // 3 * -5.5 = -16.5
    assert_eq!(score, sheet(-7, 3, 4));
}

#[test]
fn order_on_the_dot_wins_nothing() {
    let mut score = sheet(4, 7, 2);
    score.compute_on_success(7500, 3);
    assert_eq!(score, sheet(4, 8, 2));
}

#[test]
fn wrong_order_costs_a_life_and_the_streak() {
    let mut score = sheet(40, 3, 5);
    score.compute_on_failure();
    assert_eq!(score, sheet(40, 0, 4));
}

#[test]
fn wrong_order_after_a_right_one_leaves_no_streak() {
    for streak in [0, 1, 7, 1000] {
        let mut score = sheet(0, streak, 5);
        score.compute_on_success(1000, 4);
        assert_eq!(score.streak, streak + 1);
        score.compute_on_failure();
        assert_eq!(score.streak, 0);
    }
}

#[test]
fn fifth_wrong_order_takes_the_last_life() {
    let mut score = Score::default();
    for left in [4, 3, 2, 1] {
        score.compute_on_failure();
        score.compute_on_success(1000, 3);
        assert_eq!(score.lives, left);
    }
    score.compute_on_failure();
    assert_eq!(score.lives, 0);
}

#[test]
fn points_that_do_not_fit_are_told_apart() {
    assert!(!sheet(0, i64::MAX, 5).fits_success(0, 3));
    assert!(!sheet(i64::MAX, 0, 5).fits_success(0, 3));
    assert!(sheet(i64::MAX, 0, 5).fits_success(7500, 3));
    assert!(sheet(i64::MAX, 0, 5).fits_success(9000, 3));
    assert!(!sheet(i64::MIN, 0, 5).fits_success(9000, 3));
    assert!(!sheet(0, i64::MAX - 1, 5).fits_success(0, usize::MAX));
    assert!(!sheet(0, i64::MAX - 1, 5).fits_success(u64::MAX, 0));
    assert!(sheet(i64::MAX - 6, 0, 5).fits_success(2000, 3));
    assert!(!sheet(i64::MAX - 5, 0, 5).fits_success(2000, 3));
}

#[test]
fn life_icons_go_out_from_the_right() {
    let score = sheet(0, 0, 3);
    assert_eq!(LifeIcon(0).sprite_index(&score), 0);
    assert_eq!(LifeIcon(2).sprite_index(&score), 0);
    assert_eq!(LifeIcon(3).sprite_index(&score), 1);
    assert_eq!(LifeIcon(4).sprite_index(&score), 1);
}

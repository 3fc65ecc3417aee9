//! The score sheet: points, the streak of right orders in a row, and the
//! lives that wrong orders cost.
//!
//! Time is counted in milliseconds. A customer allows a fixed time for the
//! burger and some more for each ingredient of the order; a right order wins
//! as many points as there are seconds left of that time, once for each
//! order of the streak, rounded to the nearest whole point.

use vstd::prelude::*;

verus! {

/// The time a customer allows for each ingredient of the order.
pub const TIME_PER_INGREDIENT_MS: u64 = 1500;

/// The time a customer allows on top of that, whatever the order.
pub const EXTRA_TIME_PER_BURGER_MS: u64 = 3000;

/// The lives a session starts with.
pub const STARTING_LIVES: i32 = 5;

/// The time a customer waits for an order of `order_size` ingredients.
pub open spec fn time_budget_ms(order_size: nat) -> nat {
    EXTRA_TIME_PER_BURGER_MS as nat + order_size * TIME_PER_INGREDIENT_MS as nat
}

/// How far ahead of the customer's patience the burger came, in
/// milliseconds. Negative when it came late.
pub open spec fn time_performance_ms(elapsed_ms: nat, order_size: nat) -> int {
    time_budget_ms(order_size) - elapsed_ms
}

/// Thousandths of a point as whole points: the nearest one, and of two
/// equally near ones the one farther from zero.
pub open spec fn round_to_points(thousandths: int) -> int {
    if thousandths >= 0 {
        (thousandths + 500) / 1000
    } else {
        -((500 - thousandths) / 1000)
    }
}

/// The points that the order closing a streak of `streak` right orders wins.
pub open spec fn points_won(streak: int, elapsed_ms: nat, order_size: nat) -> int {
    round_to_points(streak * time_performance_ms(elapsed_ms, order_size))
}

/// How a session stands.
#[derive(Clone, Copy, PartialEq, Eq, Debug, Structural)]
pub struct Score {
    pub score: i64,
    /// The right orders in a row, up to the last one.
    pub streak: i64,
    pub lives: i32,
}

impl Default for Score {
    /// No points, no streak, all lives.
    fn default() -> (fresh: Self)
        ensures
            fresh == Score::fresh(),
    {
        Score { score: 0, streak: 0, lives: STARTING_LIVES }
    }
}

impl Score {
    /// The sheet after a wrong or late order.
    pub open spec fn after_failure(self) -> Score {
        Score { score: self.score, streak: 0, lives: (self.lives - 1) as i32 }
    }

    /// The sheet after a right order delivered `elapsed_ms` after it was
    /// made.
    pub open spec fn after_success(self, elapsed_ms: nat, order_size: nat) -> Score {
        Score {
            score: (self.score + points_won(self.streak + 1, elapsed_ms, order_size)) as i64,
            streak: (self.streak + 1) as i64,
            lives: self.lives,
        }
    }

    /// Whether a right order can be booked: the streak and the points still
    /// fit the sheet.
    pub open spec fn can_score(self, elapsed_ms: nat, order_size: nat) -> bool {
        &&& self.streak < i64::MAX
        &&& i64::MIN <= self.score + points_won(self.streak + 1, elapsed_ms, order_size)
            <= i64::MAX
    }

    /// Whether a right order can be booked, worked out without booking it.
    pub fn fits_success(&self, elapsed_ms: u64, order_size: usize) -> (fits: bool)
        ensures
            fits == self.can_score(elapsed_ms as nat, order_size as nat),
    {
        if self.streak == i64::MAX {
            return false;
        }
        let streak: i128 = self.streak as i128 + 1;
        assert(order_size * TIME_PER_INGREDIENT_MS <= 0x1_0000_0000_0000_0000 * 1500);
        let time_performance: i128 = EXTRA_TIME_PER_BURGER_MS as i128 + order_size as i128
            * TIME_PER_INGREDIENT_MS as i128 - elapsed_ms as i128;
        assert(time_performance == time_performance_ms(elapsed_ms as nat, order_size as nat));
        let ghost won = points_won(streak as int, elapsed_ms as nat, order_size as nat);
        match streak.checked_mul(time_performance) {
            None => {
                assert(won < -0x1_0000_0000_0000_0000 || won > 0x1_0000_0000_0000_0000);
                false
            },
            Some(thousandths) => {
                if thousandths > 0x4000_0000_0000_0000_0000 || thousandths
                    < -0x4000_0000_0000_0000_0000 {
                    assert(won < -0x1_0000_0000_0000_0000 || won > 0x1_0000_0000_0000_0000);
                    return false;
                }
                let points: i128 = if thousandths >= 0 {
                    (thousandths + 500) / 1000
                } else {
                    -((500 - thousandths) / 1000)
                };
                assert(points == won);
                let total: i128 = self.score as i128 + points;
                i64::MIN as i128 <= total && total <= i64::MAX as i128
            },
        }
    }

    /// Books a wrong or late order: the streak is lost, and a life with it.
    pub fn compute_on_failure(&mut self)
        requires
            old(self).lives > i32::MIN,
        ensures
            *final(self) == old(self).after_failure(),
    {
        self.streak = 0;
        self.lives -= 1;
    }

    /// Books a right order of `order_size` ingredients that was delivered
    /// `elapsed_ms` after it was made. The streak grows by one. The points
    /// change by `points_won`, which is a loss when the burger came late.
    pub fn compute_on_success(&mut self, elapsed_ms: u64, order_size: usize)
        requires
            old(self).can_score(elapsed_ms as nat, order_size as nat),
        ensures
            *final(self) == old(self).after_success(elapsed_ms as nat, order_size as nat),
    {
        self.streak += 1;
        let time_performance: i128 = EXTRA_TIME_PER_BURGER_MS as i128 + order_size as i128
            * TIME_PER_INGREDIENT_MS as i128 - elapsed_ms as i128;
        assert(time_performance == time_performance_ms(elapsed_ms as nat, order_size as nat));
        let ghost won = points_won(self.streak as int, elapsed_ms as nat, order_size as nat);
        assert(-0x1_0000_0000_0000_0000 <= won <= 0x1_0000_0000_0000_0000);
        assert(-0x4000_0000_0000_0000_0000 <= self.streak * time_performance
            <= 0x4000_0000_0000_0000_0000);
        let thousandths: i128 = self.streak as i128 * time_performance;
        let points: i128 = if thousandths >= 0 {
            (thousandths + 500) / 1000
        } else {
            -((500 - thousandths) / 1000)
        };
        assert(points == won);
        self.score = (self.score as i128 + points) as i64;
    }
}

/// One of the life icons, counted from the left and from zero.
#[derive(Clone, Copy, PartialEq, Eq, Debug, Structural)]
pub struct LifeIcon(pub i32);

impl LifeIcon {
    /// The picture of this icon in its atlas: the full heart while the life
    /// it stands for is left, the lost one after.
    pub fn sprite_index(&self, score: &Score) -> (index: usize)
        ensures
            index == if self.0 >= score.lives {
                1usize
            } else {
                0usize
            },
    {
        if self.0 >= score.lives {
            1
        } else {
            0
        }
    }
}

/// One order as the score sheet sees it.
pub ghost enum Round {
    /// A right burger, handed over `elapsed_ms` after an order of
    /// `order_size` ingredients was placed.
    Right { elapsed_ms: nat, order_size: nat },
    /// A wrong burger, or none in time.
    Wrong,
}

/// How many of `rounds` went wrong.
pub open spec fn wrong_rounds(rounds: Seq<Round>) -> nat
    decreases rounds.len(),
{
    if rounds.len() == 0 {
        0
    } else {
        wrong_rounds(rounds.drop_last()) + if rounds.last() is Wrong {
            1nat
        } else {
            0nat
        }
    }
}

impl Score {
    /// The sheet a session starts with.
    pub open spec fn fresh() -> Score {
        Score { score: 0, streak: 0, lives: STARTING_LIVES }
    }

    /// The sheet after `rounds` were booked one after the other.
    pub open spec fn after_rounds(self, rounds: Seq<Round>) -> Score
        decreases rounds.len(),
    {
        if rounds.len() == 0 {
            self
        } else {
            let before = self.after_rounds(rounds.drop_last());
            match rounds.last() {
                Round::Right { elapsed_ms, order_size } => before.after_success(
                    elapsed_ms,
                    order_size,
                ),
                Round::Wrong => before.after_failure(),
            }
        }
    }
}

/// Each wrong order costs one life and right orders cost none: as long as
/// no more orders went wrong than there were lives, the lives left are the
/// lives at the start less the wrong orders, and never less than zero.
pub proof fn lemma_lives_left(start: Score, rounds: Seq<Round>)
    requires
        0 <= start.lives,
        wrong_rounds(rounds) <= start.lives,
    ensures
        start.after_rounds(rounds).lives == start.lives - wrong_rounds(rounds),
        start.after_rounds(rounds).lives >= 0,
    decreases rounds.len(),
{
    if rounds.len() > 0 {
        lemma_lives_left(start, rounds.drop_last());
    }
}

/// A fresh sheet runs out of lives with the fifth wrong order, not before,
/// however many right orders come in between.
pub proof fn lemma_five_wrong_orders_end_the_session(rounds: Seq<Round>)
    requires
        wrong_rounds(rounds) <= STARTING_LIVES,
    ensures
        Score::fresh().after_rounds(rounds).lives == 0 <==> wrong_rounds(rounds) == 5,
{
    lemma_lives_left(Score::fresh(), rounds);
}

/// A wrong order right after a right one leaves no streak, whatever the
/// streak was.
pub proof fn lemma_failure_resets_streak(before: Score, elapsed_ms: nat, order_size: nat)
    ensures
        before.after_success(elapsed_ms, order_size).after_failure().streak == 0,
        before.after_failure().streak == 0,
{
}

} // verus!

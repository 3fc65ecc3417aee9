//! The customer at the counter: how long they wait, what happens when
//! their patience runs out, and what follows once they have left.

use vstd::prelude::*;

use crate::audio::SFX;
use crate::cooking::CurrentBurger;
use crate::cooking::MadnessMode;
use crate::order::BurgerFinishedEvent;
use crate::order::Order;
use crate::score::time_budget_ms;
use crate::score::Score;
use crate::score::EXTRA_TIME_PER_BURGER_MS;
use crate::score::TIME_PER_INGREDIENT_MS;

verus! {

/// The next customer is to come in.
#[derive(Clone, Copy, PartialEq, Eq, Debug, Structural)]
pub struct CallNewCustomer;

/// What follows once a customer has left.
#[derive(Clone, Copy, PartialEq, Eq, Debug, Structural)]
pub enum CustomerExited {
    /// There are lives left: the next customer comes in.
    NextCustomer(CallNewCustomer),
    /// The last life is gone: the session is over, and `best` is the best
    /// score to remember for this mode.
    GameOver { best: i64 },
}

/// How long the customer waits for `order`, in milliseconds.
pub fn waiting_time(order: &Order) -> (patience: u64)
    requires
        time_budget_ms(order.ingredients@.len()) <= u64::MAX,
    ensures
        patience == time_budget_ms(order.ingredients@.len()),
{
    let size: u64 = order.ingredients.len() as u64;
    EXTRA_TIME_PER_BURGER_MS + size * TIME_PER_INGREDIENT_MS
}

/// The customer's patience ran out: whatever is on the plate is received as
/// a wrong burger.
pub fn watch_customer_waiting_time(current_burger: &CurrentBurger) -> (outcome: BurgerFinishedEvent)
    ensures
        outcome == (BurgerFinishedEvent {
            correct: false,
            size: current_burger.ingredients@.len() as usize,
            out_of_time: true,
        }),
{
    BurgerFinishedEvent { correct: false, size: current_burger.ingredients.len(), out_of_time: true }
}

/// The sounds of a customer whose patience ran out.
pub fn waiting_time_sfx() -> (sounds: [SFX; 2])
    ensures
        sounds@ == seq![SFX::IncorrectOrder, SFX::CustomerSad],
{
    let sounds = [SFX::IncorrectOrder, SFX::CustomerSad];
    assert(sounds@ =~= seq![SFX::IncorrectOrder, SFX::CustomerSad]);
    sounds
}

/// The name under which the best score of a mode is kept.
pub fn mode_name(madness: MadnessMode) -> (name: &'static str)
    ensures
        name@ == if madness.0 {
            "madness"@
        } else {
            "classic"@
        },
{
    if madness.0 {
        "madness"
    } else {
        "classic"
    }
}

/// The better of the score just reached and the best one on record; no
/// record counts as a best score of zero.
pub open spec fn best_score(score: i64, record: Option<i64>) -> i64 {
    let old_score = match record {
        Some(kept) => kept,
        None => 0,
    };
    if score >= old_score {
        score
    } else {
        old_score
    }
}

/// A customer has left. With a life left the next customer is called; with
/// none the session is over, and the best score to keep is worked out from
/// this session's score and the one on `record`.
pub fn watch_customer_exited(score: &Score, record: Option<i64>) -> (next: CustomerExited)
    ensures
        next == if score.lives > 0 {
            CustomerExited::NextCustomer(CallNewCustomer)
        } else {
            CustomerExited::GameOver { best: best_score(score.score, record) }
        },
{
    if score.lives > 0 {
        CustomerExited::NextCustomer(CallNewCustomer)
    } else {
        let old_score: i64 = match record {
            Some(kept) => kept,
            None => 0,
        };
        let best: i64 = if score.score >= old_score {
            score.score
        } else {
            old_score
        };
        CustomerExited::GameOver { best }
    }
}

} // verus!

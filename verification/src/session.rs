//! One session at the counter, from the first customer to the last life.
//!
//! A session owns the board, the order, the plate and the score, and moves
//! through the same few phases for every customer: the customer is called,
//! places an order, and gets a burger or runs out of patience; the outcome
//! is booked; the customer leaves. The embedding program says what happened
//! (a key, the clock, an animation that ended) and is told what to show.

use vstd::prelude::*;

use crate::cooking::add_ingredient;
use crate::cooking::animate_burger;
use crate::cooking::delete_current;
use crate::cooking::ingredient_deleted;
use crate::cooking::ingredient_for_key;
use crate::cooking::send_order;
use crate::cooking::CurrentBurger;
use crate::cooking::ExpectingOrder;
use crate::cooking::IngredientAdded;
use crate::cooking::IngredientRemoved;
use crate::cooking::MadnessMode;
use crate::cooking::DELETE_KEY;
use crate::cooking::SEND_KEY;
use crate::customer::best_score;
use crate::customer::watch_customer_exited;
use crate::customer::watch_customer_waiting_time;
use crate::customer::CallNewCustomer;
use crate::customer::CustomerExited;
use crate::ingredients::not_among;
use crate::ingredients::Ingredient;
use crate::ingredients::Menu;
use crate::order::add_order;
use crate::order::can_receive;
use crate::order::init_menu;
use crate::order::receive_burger;
use crate::order::score_after;
use crate::order::BurgerFinishedEvent;
use crate::order::MenuOnDisplay;
use crate::order::Order;
use crate::recipe::is_basic_menu;
use crate::recipe::is_order_from;
use crate::recipe::lemma_order_shape;
use crate::recipe::OrderDraws;
use crate::recipe::MAX_SIZE_OF_BURGER;
use crate::restaurant::add_ingredient_to_menu;
use crate::restaurant::add_ingredient_watcher;
use crate::restaurant::can_replace;
use crate::restaurant::lemma_replacement_spares;
use crate::restaurant::AddIngredientEvent;
use crate::restaurant::AddIngredientTimer;
use crate::restaurant::ShowIngredientEvent;
use crate::restaurant::ShowOrderEvent;
use crate::restaurant::ADD_INGREDIENT_INTERVAL_MS;
use crate::restaurant::MENU_SIZE;
use crate::score::Score;
use crate::score::STARTING_LIVES;

verus! {

/// Where a session stands with its customer.
#[derive(Clone, Copy, PartialEq, Eq, Debug, Structural)]
pub enum Phase {
    /// Nobody is at the counter.
    WaitingForCustomer,
    /// A customer has come in and has not ordered yet.
    CustomerPresentNoOrder,
    /// The order is on show and the customer's patience is running.
    OrderDisplayed,
    /// A burger was received or the patience ran out; the customer is
    /// leaving.
    OrderResolved,
    /// The last life is gone.
    SessionOver,
}

/// What a key did.
#[derive(Clone, Copy, PartialEq, Eq, Debug, Structural)]
pub enum KeyOutcome {
    /// Nothing.
    Ignored,
    /// It put an ingredient on the burger.
    Added(IngredientAdded),
    /// It took the last ingredient off the burger.
    Removed(IngredientRemoved),
    /// It handed the burger to the customer.
    Sent(BurgerFinishedEvent),
}

/// A session and all it owns.
pub struct Session {
    pub menu: Menu,
    pub madness_mode: MadnessMode,
    pub menu_on_display: MenuOnDisplay,
    pub timer: AddIngredientTimer,
    pub order: Order,
    pub current_burger: CurrentBurger,
    pub score: Score,
    pub phase: Phase,
}

impl Session {
    /// What holds of a session from its start to its end.
    ///
    /// The board shows bread first and a patty second. No life is counted
    /// below zero; a customer is only served while a life is left, and the
    /// session is over only when none is. While an order is on show it is a
    /// burger between two slices of bread. Whatever lies on the plate has
    /// been on the board.
    pub open spec fn wf(&self) -> bool {
        &&& self.menu_on_display.wf()
        &&& self.timer.wf()
        &&& self.menu_on_display@.len() >= 3
        &&& self.menu_on_display@[0] == Ingredient::Bread
        &&& self.menu_on_display@[1].is_meat()
        &&& 0 <= self.score.lives <= STARTING_LIVES
        &&& self.phase == Phase::SessionOver ==> self.score.lives == 0
        &&& self.serving() ==> self.score.lives > 0
        &&& self.phase == Phase::OrderDisplayed ==> {
            &&& 3 <= self.order.ingredients@.len() <= MAX_SIZE_OF_BURGER + 1
            &&& self.order.ingredients@.first() == Ingredient::Bread
            &&& self.order.ingredients@.last() == Ingredient::Bread
        }
        &&& forall|k: int|
            0 <= k < self.current_burger.ingredients@.len() ==> self.menu_on_display.seen().contains(
                #[trigger] self.current_burger.ingredients@[k],
            )
    }

    /// Whether a customer is being waited for or served.
    pub open spec fn serving(&self) -> bool {
        self.phase == Phase::WaitingForCustomer || self.phase == Phase::CustomerPresentNoOrder
            || self.phase == Phase::OrderDisplayed
    }

    /// Whether the session has come to its end.
    pub fn is_over(&self) -> (over: bool)
        ensures
            over == (self.phase == Phase::SessionOver),
    {
        self.phase == Phase::SessionOver
    }

    /// Starts a session: the board is seeded with the ingredients to start
    /// with, the score sheet is fresh, the plate is empty, and nobody is at
    /// the counter yet. Also says what went up on the board, place by place.
    pub fn start(menu: Menu, madness_mode: MadnessMode) -> (started: (Session, Vec<
        ShowIngredientEvent,
    >))
        ensures
            started.0.wf(),
            started.0.phase == Phase::WaitingForCustomer,
            started.0.menu == menu,
            started.0.madness_mode == madness_mode,
            started.0.score == Score::fresh(),
            started.0.current_burger.ingredients@ == Seq::<Ingredient>::empty(),
            started.0.timer.elapsed() == 0,
            is_basic_menu(menu, madness_mode.0, started.0.menu_on_display@),
            started.0.menu_on_display.seen() == started.0.menu_on_display@.to_set(),
            started.1@.len() == started.0.menu_on_display@.len(),
            forall|k: int|
                0 <= k < started.1@.len() ==> #[trigger] started.1@[k] == (ShowIngredientEvent {
                    replace: false,
                    position: k as usize,
                    ingredient: started.0.menu_on_display@[k],
                    timer: false,
                }),
    {
        let mut menu_on_display = MenuOnDisplay::new();
        let requests = init_menu(&menu, madness_mode, &mut menu_on_display);
        let ghost seed = requests@.map_values(|event: AddIngredientEvent| event.ingredient);
        let mut shown: Vec<ShowIngredientEvent> = Vec::new();
        let mut at: usize = 0;
        assert(seed.subrange(0, 0) =~= Seq::<Ingredient>::empty());
        assert(menu_on_display.seen() =~= menu_on_display@.to_set());
        while at < requests.len()
            invariant
                at <= requests@.len() <= MENU_SIZE,
                seed == requests@.map_values(|event: AddIngredientEvent| event.ingredient),
                seed.no_duplicates(),
                forall|k: int| 0 <= k < requests@.len() ==> !(#[trigger] requests@[k]).timer,
                menu_on_display.wf(),
                menu_on_display@ == seed.subrange(0, at as int),
                menu_on_display.seen() == menu_on_display@.to_set(),
                shown@.len() == at,
                forall|k: int|
                    0 <= k < at ==> #[trigger] shown@[k] == (ShowIngredientEvent {
                        replace: false,
                        position: k as usize,
                        ingredient: seed[k],
                        timer: false,
                    }),
            decreases requests@.len() - at,
        {
            let request = requests[at];
            let ghost before = menu_on_display@;
            let event = add_ingredient_to_menu(&mut menu_on_display, request);
            proof {
                assert(request.ingredient == seed[at as int]);
                assert(seed.subrange(0, at + 1) =~= before.push(request.ingredient));
                assert(menu_on_display@[at as int] == request.ingredient);
                assert(event.position == at);
                before.lemma_push_to_set_commute(request.ingredient);
            }
            shown.push(event);
            at += 1;
        }
        assert(seed.subrange(0, at as int) =~= seed);
        let session = Session {
            menu,
            madness_mode,
            menu_on_display,
            timer: AddIngredientTimer::new(),
            order: Order::default(),
            current_burger: CurrentBurger::default(),
            score: Score::default(),
            phase: Phase::WaitingForCustomer,
        };
        (session, shown)
    }

    /// The next customer comes in, if the counter is free.
    pub fn call_new_customer(&mut self) -> (came: bool)
        requires
            old(self).wf(),
        ensures
            final(self).wf(),
            came == (old(self).phase == Phase::WaitingForCustomer),
            *final(self) == if came {
                (Session { phase: Phase::CustomerPresentNoOrder, ..*old(self) })
            } else {
                *old(self)
            },
    {
        if self.phase == Phase::WaitingForCustomer {
            self.phase = Phase::CustomerPresentNoOrder;
            true
        } else {
            false
        }
    }

    /// The customer at the counter places an order, made up from what the
    /// board shows; the clock of the order starts at `now`. Nothing happens
    /// unless a customer is there and has not ordered yet.
    pub fn take_order(&mut self, now: u64) -> (shown: Option<ShowOrderEvent>)
        requires
            old(self).wf(),
        ensures
            final(self).wf(),
            shown is Some <==> old(self).phase == Phase::CustomerPresentNoOrder,
            shown is Some ==> {
                &&& final(self).phase == Phase::OrderDisplayed
                &&& is_order_from(old(self).menu_on_display@, final(self).order.ingredients@)
                &&& final(self).order.creation_time == now
            },
            shown is None ==> final(self).phase == old(self).phase && final(self).order == old(
                self,
            ).order,
            final(self).menu == old(self).menu,
            final(self).madness_mode == old(self).madness_mode,
            final(self).menu_on_display == old(self).menu_on_display,
            final(self).timer == old(self).timer,
            final(self).current_burger == old(self).current_burger,
            final(self).score == old(self).score,
    {
        if self.phase != Phase::CustomerPresentNoOrder {
            return None;
        }
        let mut expecting_order = ExpectingOrder(false);
        assert(self.menu_on_display@.contains(self.menu_on_display@[1]));
        match add_order(&self.menu_on_display, &self.menu, now, &mut self.order, &mut expecting_order) {
            Ok(Some(event)) => {
                proof {
                    let pool = self.menu_on_display@;
                    let order = self.order.ingredients@;
                    let draws = choose|draws: OrderDraws| #[trigger]
                        draws.allowed_by(pool) && draws.yields(order);
                    lemma_order_shape(pool, draws, order);
                }
                self.phase = Phase::OrderDisplayed;
                Some(event)
            },
            _ => None,
        }
    }

    /// Whether the key that is pressed at `now` hands over the burger.
    pub open spec fn key_sends(&self, key: char) -> bool {
        key == SEND_KEY && self.phase == Phase::OrderDisplayed
            && self.current_burger.ingredients@.len() > 0
    }

    /// How the burger on the plate would be received.
    pub open spec fn burger_outcome(&self) -> BurgerFinishedEvent {
        BurgerFinishedEvent {
            correct: self.current_burger.ingredients@ == self.order.ingredients@,
            size: self.current_burger.ingredients@.len() as usize,
            out_of_time: false,
        }
    }

    /// Whether `key` can be pressed at `now`: if it hands over the right
    /// burger, the clock has not gone back behind the order, and the points
    /// fit the score sheet.
    pub open spec fn can_press(&self, key: char, now: u64) -> bool {
        self.key_sends(key) ==> can_receive(self.score, self.order, now, self.burger_outcome())
    }

    /// Whether `key` can be pressed at `now`, worked out as the session
    /// stands.
    pub fn check_press(&self, key: char, now: u64) -> (fits: bool)
        requires
            self.wf(),
        ensures
            fits == self.can_press(key, now),
    {
        if key == SEND_KEY && self.phase == Phase::OrderDisplayed
            && self.current_burger.ingredients.len() > 0 {
            if crate::cooking::same_burger(&self.current_burger.ingredients, &self.order.ingredients) {
                self.order.creation_time <= now && self.score.fits_success(
                    now - self.order.creation_time,
                    self.current_burger.ingredients.len(),
                )
            } else {
                true
            }
        } else {
            true
        }
    }

    /// A key was pressed at `now`.
    ///
    /// The delete key takes the last ingredient off the burger, if there is
    /// one. The send key hands the burger to the
    /// customer whose order is on show, unless the plate is empty: the
    /// burger is correct exactly when it is the order, the outcome is booked
    /// on the score sheet, the plate is cleared, and the customer starts to
    /// leave. Any other key puts the ingredient it stands for on the burger,
    /// if that ingredient has been on the board.
    pub fn press_key(&mut self, key: char, now: u64) -> (outcome: KeyOutcome)
        requires
            old(self).wf(),
            old(self).can_press(key, now),
        ensures
            final(self).wf(),
            final(self).menu == old(self).menu,
            final(self).madness_mode == old(self).madness_mode,
            final(self).menu_on_display == old(self).menu_on_display,
            final(self).timer == old(self).timer,
            final(self).order == old(self).order,
            key == DELETE_KEY ==> {
                &&& final(self).score == old(self).score
                &&& final(self).phase == old(self).phase
                &&& match ingredient_deleted(key, old(self).current_burger.ingredients@) {
                    Some(removed) => {
                        &&& outcome == KeyOutcome::Removed(removed)
                        &&& final(self).current_burger.ingredients@ == old(
                            self,
                        ).current_burger.ingredients@.drop_last()
                    },
                    None => {
                        &&& outcome == KeyOutcome::Ignored
                        &&& final(self).current_burger.ingredients@ == old(
                            self,
                        ).current_burger.ingredients@
                    },
                }
            },
            old(self).key_sends(key) ==> {
                &&& outcome == KeyOutcome::Sent(old(self).burger_outcome())
                &&& final(self).current_burger.ingredients@ == Seq::<Ingredient>::empty()
                &&& final(self).score == score_after(
                    old(self).score,
                    old(self).order,
                    now,
                    old(self).burger_outcome(),
                )
                &&& final(self).phase == Phase::OrderResolved
            },
            key == SEND_KEY && !old(self).key_sends(key) ==> {
                &&& outcome == KeyOutcome::Ignored
                &&& final(self).current_burger.ingredients@ == old(self).current_burger.ingredients@
                &&& final(self).score == old(self).score
                &&& final(self).phase == old(self).phase
            },
            key != DELETE_KEY && key != SEND_KEY ==> {
                &&& final(self).score == old(self).score
                &&& final(self).phase == old(self).phase
                &&& match ingredient_for_key(key, old(self).menu_on_display) {
                    Some(ingredient) => {
                        &&& outcome == KeyOutcome::Added(
                            IngredientAdded {
                                ingredient,
                                position: old(self).current_burger.ingredients@.len() as usize,
                            },
                        )
                        &&& final(self).current_burger.ingredients@ == old(
                            self,
                        ).current_burger.ingredients@.push(ingredient)
                    },
                    None => {
                        &&& outcome == KeyOutcome::Ignored
                        &&& final(self).current_burger.ingredients@ == old(
                            self,
                        ).current_burger.ingredients@
                    },
                }
            },
    {
        if key == DELETE_KEY {
            return match delete_current(key, &mut self.current_burger) {
                Some(removed) => KeyOutcome::Removed(removed),
                None => KeyOutcome::Ignored,
            };
        }
        let mut expecting_order = ExpectingOrder(self.phase == Phase::OrderDisplayed);
        if let Some(event) = send_order(key, &self.order, &mut expecting_order, &self.current_burger) {
            receive_burger(now, &self.order, &mut self.score, event);
            animate_burger(&mut self.current_burger);
            self.phase = Phase::OrderResolved;
            return KeyOutcome::Sent(event);
        }
        if key == SEND_KEY {
            return KeyOutcome::Ignored;
        }
        match add_ingredient(key, &mut self.current_burger, &self.menu_on_display) {
            Some(added) => KeyOutcome::Added(added),
            None => KeyOutcome::Ignored,
        }
    }

    /// The customer's patience ran out. While an order is on show, whatever
    /// lies on the plate is received as a wrong burger: a life and the
    /// streak are lost, the plate is cleared, and the customer starts to
    /// leave. At any other time nothing happens.
    pub fn waiting_time_elapsed(&mut self) -> (outcome: Option<BurgerFinishedEvent>)
        requires
            old(self).wf(),
        ensures
            final(self).wf(),
            outcome == if old(self).phase == Phase::OrderDisplayed {
                Some(
                    BurgerFinishedEvent {
                        correct: false,
                        size: old(self).current_burger.ingredients@.len() as usize,
                        out_of_time: true,
                    },
                )
            } else {
                None
            },
            outcome is Some ==> {
                &&& final(self).phase == Phase::OrderResolved
                &&& final(self).score == old(self).score.after_failure()
                &&& final(self).current_burger.ingredients@ == Seq::<Ingredient>::empty()
            },
            outcome is None ==> {
                &&& final(self).phase == old(self).phase
                &&& final(self).score == old(self).score
                &&& final(self).current_burger == old(self).current_burger
            },
            final(self).menu == old(self).menu,
            final(self).madness_mode == old(self).madness_mode,
            final(self).menu_on_display == old(self).menu_on_display,
            final(self).timer == old(self).timer,
            final(self).order == old(self).order,
    {
        if self.phase != Phase::OrderDisplayed {
            return None;
        }
        let event = watch_customer_waiting_time(&self.current_burger);
        self.score.compute_on_failure();
        animate_burger(&mut self.current_burger);
        self.phase = Phase::OrderResolved;
        Some(event)
    }

    /// The customer has left. With a life left the counter is free for the
    /// next customer, who is to be called; with none the session is over,
    /// and the best score to keep is the better of this session's and the
    /// one on `record`. Nothing happens unless a customer was leaving.
    pub fn customer_exited(&mut self, record: Option<i64>) -> (next: Option<CustomerExited>)
        requires
            old(self).wf(),
        ensures
            final(self).wf(),
            next == if old(self).phase != Phase::OrderResolved {
                None
            } else if old(self).score.lives > 0 {
                Some(CustomerExited::NextCustomer(CallNewCustomer))
            } else {
                Some(CustomerExited::GameOver { best: best_score(old(self).score.score, record) })
            },
            final(self).phase == if old(self).phase != Phase::OrderResolved {
                old(self).phase
            } else if old(self).score.lives > 0 {
                Phase::WaitingForCustomer
            } else {
                Phase::SessionOver
            },
            final(self).menu == old(self).menu,
            final(self).madness_mode == old(self).madness_mode,
            final(self).menu_on_display == old(self).menu_on_display,
            final(self).timer == old(self).timer,
            final(self).order == old(self).order,
            final(self).current_burger == old(self).current_burger,
            final(self).score == old(self).score,
    {
        if self.phase != Phase::OrderResolved {
            return None;
        }
        let next = watch_customer_exited(&self.score, record);
        match next {
            CustomerExited::NextCustomer(_) => {
                self.phase = Phase::WaitingForCustomer;
            },
            CustomerExited::GameOver { .. } => {
                self.phase = Phase::SessionOver;
            },
        }
        Some(next)
    }

    /// The clock went on by `delta_ms`. Every ten seconds of a running
    /// session an ingredient that the menu offers and the board does not
    /// show goes up on the board, as `add_ingredient_to_menu` has it. Nothing
    /// is counted once the session is over.
    pub fn tick_menu(&mut self, delta_ms: u64) -> (shown: Option<ShowIngredientEvent>)
        requires
            old(self).wf(),
        ensures
            final(self).wf(),
            final(self).timer.elapsed() == if old(self).phase == Phase::SessionOver {
                old(self).timer.elapsed() as int
            } else {
                (old(self).timer.elapsed() + delta_ms) % (ADD_INGREDIENT_INTERVAL_MS as int)
            },
            shown is Some <==> {
                &&& old(self).phase != Phase::SessionOver
                &&& old(self).timer.elapsed() + delta_ms >= ADD_INGREDIENT_INTERVAL_MS
                &&& not_among(old(self).menu.catalog(), old(self).menu_on_display@).len() > 0
            },
            shown matches Some(event) ==> {
                &&& event.timer
                &&& old(self).menu.catalog().contains(event.ingredient)
                &&& !old(self).menu_on_display@.contains(event.ingredient)
                &&& final(self).menu_on_display.seen() == old(self).menu_on_display.seen().insert(
                    event.ingredient,
                )
                &&& event.replace == (old(self).menu_on_display@.len() > MENU_SIZE)
                &&& !event.replace ==> final(self).menu_on_display@ == old(
                    self,
                ).menu_on_display@.push(event.ingredient) && event.position == old(
                    self,
                ).menu_on_display@.len()
                &&& event.replace ==> can_replace(
                    old(self).menu_on_display@,
                    event.ingredient,
                    event.position as int,
                ) && final(self).menu_on_display@ == old(self).menu_on_display@.update(
                    event.position as int,
                    event.ingredient,
                )
            },
            shown is None ==> final(self).menu_on_display == old(self).menu_on_display,
            final(self).menu == old(self).menu,
            final(self).madness_mode == old(self).madness_mode,
            final(self).order == old(self).order,
            final(self).current_burger == old(self).current_burger,
            final(self).score == old(self).score,
            final(self).phase == old(self).phase,
    {
        if self.phase == Phase::SessionOver {
            return None;
        }
        match add_ingredient_watcher(&mut self.timer, delta_ms, &self.menu, &self.menu_on_display) {
            Some(request) => {
                let ghost before = self.menu_on_display@;
                let event = add_ingredient_to_menu(&mut self.menu_on_display, request);
                proof {
                    if event.replace {
                        lemma_replacement_spares(before, request.ingredient, event.position as int);
                    }
                }
                Some(event)
            },
            None => None,
        }
    }
}

} // verus!

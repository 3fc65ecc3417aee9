//! The sounds and tunes the game can ask for. Playing them is the embedding
//! program's business; choosing them is a rule of the game.

use vstd::prelude::*;

verus! {

/// A background tune.
#[derive(Clone, Copy, PartialEq, Eq, Debug, Structural)]
pub enum BGM {
    Title,
    Classic,
    Madness,
    GameOver,
}

/// A sound effect.
#[derive(Clone, Copy, PartialEq, Eq, Debug, Structural)]
pub enum SFX {
    IncorrectOrder,
    CorrectOrder,
    Bread,
    Lettuce,
    Meat,
    Sauce,
    Vegetable,
    CustomerSad,
    CustomerHappy,
    Chalk,
}

} // verus!

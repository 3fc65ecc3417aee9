//! The game-over screen.

use vstd::prelude::*;

verus! {

/// Whether the key that was let go leads back to the title screen: any of
/// the keys under the word on the screen does.
pub fn update_game_over(key: char) -> (leave: bool)
    ensures
        leave == (key == 'm' || key == 'i' || key == 'a'),
{
    key == 'm' || key == 'i' || key == 'a'
}

} // verus!

//! The title screen: which key starts which kind of session.

use vstd::prelude::*;

use crate::cooking::MadnessMode;
use crate::cooking::SEND_KEY;

verus! {

/// What a key asks for on the title screen, once the burger has opened.
#[derive(Clone, Copy, PartialEq, Eq, Debug, Structural)]
pub enum TitleAction {
    /// Start a session in the given mode.
    Cook(MadnessMode),
    /// Pause the music if it plays, and resume it if it does not.
    ToggleMusic,
}

/// Whether the burger of the title screen opens now: it opens once, when
/// the space key is held down.
pub fn opens_burger(burger_open: bool, pressed: &Vec<char>) -> (opens: bool)
    ensures
        opens == (!burger_open && pressed@.contains(SEND_KEY)),
{
    if burger_open {
        return false;
    }
    let mut at: usize = 0;
    while at < pressed.len()
        invariant
            !burger_open,
            at <= pressed@.len(),
            forall|k: int| 0 <= k < at ==> pressed@[k] != SEND_KEY,
        decreases pressed@.len() - at,
    {
        if pressed[at] == SEND_KEY {
            return true;
        }
        at += 1;
    }
    false
}

/// What the key that was let go asks for.
pub fn handle_input(key: char) -> (action: Option<TitleAction>)
    ensures
        action == match key {
            'c' => Some(TitleAction::Cook(MadnessMode(false))),
            'd' => Some(TitleAction::Cook(MadnessMode(true))),
            'u' => Some(TitleAction::ToggleMusic),
            _ => None,
        },
{
    match key {
        'c' => Some(TitleAction::Cook(MadnessMode(false))),
        'd' => Some(TitleAction::Cook(MadnessMode(true))),
        'u' => Some(TitleAction::ToggleMusic),
        _ => None,
    }
}

} // verus!

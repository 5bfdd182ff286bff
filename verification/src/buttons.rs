use vstd::prelude::*;
use crate::mode::Mode;

verus! {

/// The start-screen "Start" button; a click inside its hit region requests
/// the conversation minigame.
pub struct StartButton();

/// The start-screen "Credits" button; a click inside its hit region
/// requests the credits roll.
pub struct CreditsButton();

impl StartButton {
    /// The button's hit region, in window pixel coordinates, with the
    /// origin at the window's lower-left corner.
    pub open spec fn region_contains(x: int, y: int) -> bool {
        550 < x && x < 725 && 375 < y && y < 425
    }

    /// Whether a pointer position lies inside the button's hit region.
    pub fn contains(x: i64, y: i64) -> (r: bool)
        ensures
            r == Self::region_contains(x as int, y as int),
    {
        550 < x && x < 725 && 375 < y && y < 425
    }
}

impl CreditsButton {
    /// The button's hit region, in window pixel coordinates, with the
    /// origin at the window's lower-left corner.
    pub open spec fn region_contains(x: int, y: int) -> bool {
        535 < x && x < 740 && 280 < y && y < 340
    }

    /// Whether a pointer position lies inside the button's hit region.
    pub fn contains(x: i64, y: i64) -> (r: bool)
        ensures
            r == Self::region_contains(x as int, y as int),
    {
        535 < x && x < 740 && 280 < y && y < 340
    }
}

/// The mode a primary-button click at (x, y) requests: the Start button
/// leads into the conversation minigame, the Credits button into the
/// credits roll, and a click anywhere else requests nothing.
pub open spec fn click_target(x: int, y: int) -> Option<Mode> {
    if StartButton::region_contains(x, y) {
        Some(Mode::Conversation)
    } else if CreditsButton::region_contains(x, y) {
        Some(Mode::Credits)
    } else {
        None
    }
}

/// The mode a tick's pointer input requests: nothing unless the primary
/// button was just pressed and the cursor is inside the window, else
/// whatever button the cursor position hits.
pub open spec fn click_request(clicked: bool, cursor: Option<(i64, i64)>) -> Option<Mode> {
    if clicked {
        match cursor {
            Some(p) => click_target(p.0 as int, p.1 as int),
            None => None,
        }
    } else {
        None
    }
}

/// Maps a click position to the mode it requests, per `click_target`.
pub fn button_target(x: i64, y: i64) -> (r: Option<Mode>)
    ensures
        r == click_target(x as int, y as int),
{
    if StartButton::contains(x, y) {
        Some(Mode::Conversation)
    } else if CreditsButton::contains(x, y) {
        Some(Mode::Credits)
    } else {
        None
    }
}

} // verus!

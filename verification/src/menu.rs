//! The two buttons shown once a game is over: one to play again, and below
//! it one to leave.

use vstd::prelude::*;
use crate::sync::Decision;

verus! {

/// Width of a button in pixels.
pub const BUTTON_WIDTH: i32 = 300;

/// Height of a button in pixels.
pub const BUTTON_HEIGHT: i32 = 100;

/// Left edge of both buttons, which stand in the middle of the window.
pub const BUTTON_X: i32 = 362;

/// The height around which the two buttons stand.
pub const BUTTON_Y: i32 = 512;

/// How far above and below that height the buttons start.
pub const BUTTON_DIFF: i32 = 75;

/// The point lies in the button whose top edge is at a height. A button
/// holds its left and top edges and not its right and bottom ones.
pub open spec fn in_button(top: int, x: int, y: int) -> bool {
    BUTTON_X <= x < BUTTON_X + BUTTON_WIDTH && top <= y < top + BUTTON_HEIGHT
}

/// The decision that a point of the window stands for.
pub open spec fn decision_at(x: int, y: int) -> Option<Decision> {
    if in_button(BUTTON_Y - BUTTON_DIFF, x, y) {
        Some(Decision::Restart)
    } else if in_button(BUTTON_Y + BUTTON_DIFF, x, y) {
        Some(Decision::Quit)
    } else {
        None
    }
}

/// The menu of a finished game.
pub struct Menu;

impl Menu {
    /// The decision that a click makes: the one whose button holds the
    /// pointer while its button goes down, and `None` for every other input.
    pub fn update(x: i32, y: i32, pressed: bool) -> (decision: Option<Decision>)
        ensures
            decision == if pressed {
                decision_at(x as int, y as int)
            } else {
                None
            },
    {
        if !pressed || x < BUTTON_X || x >= BUTTON_X + BUTTON_WIDTH {
            return None;
        }
        if BUTTON_Y - BUTTON_DIFF <= y && y < BUTTON_Y - BUTTON_DIFF + BUTTON_HEIGHT {
            Some(Decision::Restart)
        } else if BUTTON_Y + BUTTON_DIFF <= y && y < BUTTON_Y + BUTTON_DIFF + BUTTON_HEIGHT {
            Some(Decision::Quit)
        } else {
            None
        }
    }
}

} // verus!

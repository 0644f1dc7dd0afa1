use vstd::prelude::*;

use crate::screen_state::ScreenState;
use crate::state_change::StateChange;

verus! {

/// The tick task's note of which screen is showing, kept so it only reports
/// Euclidean step movements for the channel the display has up.
pub struct StateMemo {
    pub current_screen: ScreenState,
}

impl StateMemo {
    pub fn new(current_screen: ScreenState) -> (r: StateMemo)
        ensures
            r.current_screen == current_screen,
    {
        StateMemo { current_screen }
    }

    /// Follows the navigation changes; everything else leaves the note as it
    /// is.
    pub fn update(&mut self, state_change: &StateChange)
        ensures
            final(self).current_screen == (match *state_change {
                StateChange::NextScreen(next_screen) => next_screen,
                StateChange::OutputType(screen_state) => screen_state,
                _ => old(self).current_screen,
            }),
    {
        match state_change {
            StateChange::NextScreen(next_screen) => {
                self.current_screen = *next_screen;
            },
            StateChange::OutputType(screen_state) => {
                self.current_screen = *screen_state;
            },
            _ => {},
        }
    }
}

} // verus!

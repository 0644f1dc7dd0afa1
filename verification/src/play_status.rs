use vstd::prelude::*;

verus! {

/// Transport flag toggled by the play button. Informational only: the tick
/// scheduler keeps advancing while paused, it neither halts the master
/// counter nor forces the outputs low.
#[derive(Clone, Copy, Debug, PartialEq, Eq, Structural)]
pub enum PlayStatus {
    Playing,
    Paused,
}

} // verus!

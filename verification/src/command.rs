use vstd::prelude::*;

verus! {

/// Debounced, edge-triggered user input: one command per encoder detent or
/// button press.
#[derive(Clone, Copy, Debug, PartialEq, Eq, Structural)]
pub enum Command {
    EncoderRight,
    EncoderLeft,
    EncoderPress,
    PagePress,
    PlayPress,
    BpmPress,
}

} // verus!

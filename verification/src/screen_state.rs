use vstd::prelude::*;

use crate::bpm::Bpm;
use crate::config::OutputConfig;
use crate::output::Output;
use crate::play_status::PlayStatus;
use crate::screen::Screen;
use crate::sync::Sync;

verus! {

/// The values the home page shows.
#[derive(Clone, Copy, Debug, PartialEq, Eq, Structural)]
pub struct HomeScreenState {
    pub bpm: Bpm,
    pub sync: Sync,
    pub play_status: PlayStatus,
}

/// The values one channel's page shows, with the Euclidean step index the
/// scheduler last reported, if any.
#[derive(Clone, Copy, Debug, PartialEq, Eq, Structural)]
pub struct OutputScreenState {
    pub output: Output,
    pub config: OutputConfig,
    pub index: Option<usize>,
}

/// A full snapshot of one screen, handed to the display on navigation.
#[derive(Clone, Copy, Debug, PartialEq, Eq, Structural)]
pub enum ScreenState {
    Home(HomeScreenState),
    Output(OutputScreenState),
}

impl ScreenState {
    pub fn new_home(bpm: Bpm, sync: Sync, play_status: PlayStatus) -> (r: ScreenState)
        ensures
            r == ScreenState::Home(HomeScreenState { bpm, sync, play_status }),
    {
        ScreenState::Home(HomeScreenState { bpm, sync, play_status })
    }

    pub fn new_output(output: Output, config: OutputConfig, index: Option<usize>) -> (r:
        ScreenState)
        ensures
            r == ScreenState::Output(OutputScreenState { output, config, index }),
    {
        ScreenState::Output(OutputScreenState { output, config, index })
    }

    /// The channel index a channel page shows; the home page has none.
    pub fn index(&self) -> (r: Option<usize>)
        ensures
            r == (match *self {
                ScreenState::Home(_) => None::<usize>,
                ScreenState::Output(s) => Some(s.output.spec_index() as usize),
            }),
    {
        match self {
            ScreenState::Home(..) => None,
            ScreenState::Output(OutputScreenState { output, .. }) => Some(output.index()),
        }
    }

    /// Stores the Euclidean step index to show; the home page ignores it.
    pub fn set_index(&mut self, index: usize)
        ensures
            *final(self) == (match *old(self) {
                ScreenState::Home(h) => ScreenState::Home(h),
                ScreenState::Output(s) => ScreenState::Output(
                    OutputScreenState { index: Some(index), ..s },
                ),
            }),
    {
        if let ScreenState::Output(OutputScreenState { output, config, .. }) = self {
            *self = ScreenState::new_output(*output, *config, Some(index));
        }
    }

    /// The screen this snapshot belongs to.
    pub fn screen(&self) -> (r: Screen)
        ensures
            r == (match *self {
                ScreenState::Home(_) => Screen::Home,
                ScreenState::Output(s) => Screen::Output(s.output, s.config.output_type),
            }),
    {
        match self {
            ScreenState::Home(..) => Screen::Home,
            ScreenState::Output(OutputScreenState { output, config, .. }) => Screen::Output(
                *output,
                config.output_type(),
            ),
        }
    }
}

} // verus!

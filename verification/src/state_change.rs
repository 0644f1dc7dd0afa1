use vstd::prelude::*;

use crate::bpm::Bpm;
use crate::channel::ChannelEngine;
use crate::element::Element;
use crate::scheduler::TickScheduler;
use crate::output::Output;
use crate::output_type::OutputType;
use crate::play_status::PlayStatus;
use crate::prob::Prob;
use crate::pwm::Pwm;
use crate::rate::Rate;
use crate::screen::Screen;
use crate::screen_state::OutputScreenState;
use crate::screen_state::ScreenState;
use crate::sequence_state::SequenceState;
use crate::sync::Sync;

verus! {

/// One value or navigation change, flowing from the reducer through the tick
/// task to the display, each carrying the channel it concerns and the new
/// value.
#[derive(Clone, Copy, Debug, PartialEq, Eq, Structural)]
pub enum StateChange {
    Bpm(Bpm),
    Sync(Sync),
    Rate(Output, OutputType, Rate),
    Pwm(Output, Pwm),
    Prob(Output, Prob),
    Sequence(SequenceState),
    OutputType(ScreenState),
    PlayStatus(Screen, PlayStatus),
    NextScreen(ScreenState),
    NextElement(Screen, Element, Element),
    Index(Output, usize),
    Frame,
}

impl StateChange {
    /// The values a change may carry lie in their supported ranges.
    pub open spec fn wf(self) -> bool {
        match self {
            StateChange::Bpm(b) => b.wf(),
            StateChange::Rate(_, _, r) => r.wf(),
            StateChange::Sequence(s) => s.length.wf() && s.density.wf() && s.density.0
                <= s.length.0,
            StateChange::OutputType(ss) => (match ss {
                ScreenState::Output(o) => o.config.wf(),
                ScreenState::Home(_) => true,
            }),
            _ => true,
        }
    }

    /// What applying a change to the scheduler does: tempo and per-channel
    /// value changes reach the named channel, everything else (navigation,
    /// transport, frames, sync source, step indices) leaves it untouched.
    pub open spec fn applies_to_scheduler(self, pre: TickScheduler, post: TickScheduler) -> bool {
        match self {
            StateChange::Bpm(b) => post.bpm == b.0 && post.master_tick == pre.master_tick
                && post.channels == pre.channels,
            StateChange::Rate(o, _, rt) => post.bpm == pre.bpm && post.master_tick
                == pre.master_tick && post.channels@
                == pre.channels@.update(
                o.spec_index(),
                (ChannelEngine { rate: rt, phase: 0u32, ..pre.channels@[o.spec_index()] }),
            ),
            StateChange::Pwm(o, p) => post.bpm == pre.bpm && post.master_tick == pre.master_tick
                && post.channels@
                == pre.channels@.update(
                o.spec_index(),
                (ChannelEngine { pwm: p, ..pre.channels@[o.spec_index()] }),
            ),
            StateChange::Prob(o, p) => post.bpm == pre.bpm && post.master_tick == pre.master_tick
                && post.channels@
                == pre.channels@.update(
                o.spec_index(),
                (ChannelEngine { prob: p, ..pre.channels@[o.spec_index()] }),
            ),
            StateChange::Sequence(s) => {
                &&& post.bpm == pre.bpm
                &&& post.master_tick == pre.master_tick
                &&& post.channels@.len() == 4
                &&& forall|j: int|
                    0 <= j < 4 && j != s.output.spec_index() ==> post.channels@[j]
                        == pre.channels@[j]
                &&& ChannelEngine::set_sequence_rel(
                    pre.channels@[s.output.spec_index()],
                    post.channels@[s.output.spec_index()],
                    s.length,
                    s.density,
                )
            },
            StateChange::OutputType(ss) => (match ss {
                ScreenState::Output(o) => post.bpm == pre.bpm && post.master_tick
                    == pre.master_tick && post.channels@ == pre.channels@.update(
                    o.output.spec_index(),
                    (ChannelEngine {
                        output_type: o.config.output_type,
                        ..pre.channels@[o.output.spec_index()]
                    }),
                ),
                ScreenState::Home(_) => post == pre,
            }),
            _ => post == pre,
        }
    }

    /// Applies this change to the live scheduler: the downstream half of the
    /// tick task's drain loop.
    pub fn update_seq(&self, sched: &mut TickScheduler)
        requires
            old(sched).wf(),
            self.wf(),
        ensures
            final(sched).wf(),
            self.applies_to_scheduler(*old(sched), *final(sched)),
    {
        match self {
            StateChange::Bpm(bpm) => sched.set_bpm(bpm.0),
            StateChange::Sequence(SequenceState { output, length, density, .. }) => {
                sched.set_sequence(output.index(), *length, *density);
            },
            StateChange::OutputType(ScreenState::Output(OutputScreenState {
                output,
                config,
                ..
            })) => {
                sched.set_output_type(output.index(), config.output_type());
            },
            StateChange::Prob(output, prob) => sched.set_prob(output.index(), *prob),
            StateChange::Pwm(output, pwm) => sched.set_pwm(output.index(), *pwm),
            StateChange::Rate(output, _, rate) => sched.set_rate(output.index(), *rate),
            _ => {},
        }
    }

    /// Fills in the current Euclidean step index of the channel a snapshot
    /// or pattern change concerns, so the display can mark the step.
    pub fn update_index(self, sched: &TickScheduler) -> (r: StateChange)
        requires
            sched.wf(),
        ensures
            r == (match self {
                StateChange::NextScreen(ss) => StateChange::NextScreen(
                    (match ss {
                        ScreenState::Home(h) => ScreenState::Home(h),
                        ScreenState::Output(o) => ScreenState::Output(
                            OutputScreenState {
                                index: Some(
                                    sched.channels@[o.output.spec_index()].index as usize,
                                ),
                                ..o
                            },
                        ),
                    }),
                ),
                StateChange::OutputType(ss) => StateChange::OutputType(
                    (match ss {
                        ScreenState::Home(h) => ScreenState::Home(h),
                        ScreenState::Output(o) => ScreenState::Output(
                            OutputScreenState {
                                index: Some(
                                    sched.channels@[o.output.spec_index()].index as usize,
                                ),
                                ..o
                            },
                        ),
                    }),
                ),
                StateChange::Sequence(s) => StateChange::Sequence(
                    SequenceState {
                        index: Some(sched.channels@[s.output.spec_index()].index as usize),
                        ..s
                    },
                ),
                _ => self,
            }),
    {
        match self {
            StateChange::NextScreen(mut screen_state) => {
                match screen_state.index() {
                    Some(idx) => {
                        let step = sched.get_index(idx);
                        screen_state.set_index(step);
                    },
                    None => {},
                }
                StateChange::NextScreen(screen_state)
            },
            StateChange::OutputType(mut screen_state) => {
                match screen_state.index() {
                    Some(idx) => {
                        let step = sched.get_index(idx);
                        screen_state.set_index(step);
                    },
                    None => {},
                }
                StateChange::OutputType(screen_state)
            },
            StateChange::Sequence(mut sequence_state) => {
                let step = sched.get_index(sequence_state.output.index());
                sequence_state.index = Some(step);
                StateChange::Sequence(sequence_state)
            },
            _ => self,
        }
    }

    /// The screen a change belongs on, or `None` for changes every screen
    /// absorbs; the display redraws only when the change's screen is the one
    /// it shows.
    pub fn screen_of(&self) -> (r: Option<Screen>)
        ensures
            r == (match *self {
                StateChange::Frame => None::<Screen>,
                StateChange::Bpm(_) => Some(Screen::Home),
                StateChange::Sync(_) => Some(Screen::Home),
                StateChange::PlayStatus(screen, _) => (if screen == Screen::Home {
                    Some(Screen::Home)
                } else {
                    None
                }),
                StateChange::Rate(output, output_type, _) => Some(
                    Screen::Output(output, output_type),
                ),
                StateChange::Prob(output, _) => Some(Screen::Output(output, OutputType::Gate)),
                StateChange::Pwm(output, _) => Some(Screen::Output(output, OutputType::Gate)),
                StateChange::Index(output, _) => Some(Screen::Output(output, OutputType::Euclid)),
                StateChange::Sequence(s) => Some(Screen::Output(s.output, OutputType::Euclid)),
                StateChange::OutputType(ss) => (match ss {
                    ScreenState::Output(o) => Some(Screen::Output(o.output, o.config.output_type)),
                    ScreenState::Home(_) => None,
                }),
                StateChange::NextElement(screen, _, _) => Some(screen),
                StateChange::NextScreen(ss) => (match ss {
                    ScreenState::Home(_) => Some(Screen::Home),
                    ScreenState::Output(o) => Some(Screen::Output(o.output, o.config.output_type)),
                }),
            }),
    {
        match self {
            StateChange::Frame => None,
            StateChange::Bpm(_) | StateChange::Sync(_) => Some(Screen::Home),
            StateChange::PlayStatus(screen, _) => {
                if let Screen::Home = screen {
                    Some(Screen::Home)
                } else {
                    None
                }
            },
            StateChange::Rate(output, output_type, _) => Some(Screen::Output(*output, *output_type)),
            StateChange::Prob(output, _) | StateChange::Pwm(output, _) => Some(
                Screen::Output(*output, OutputType::Gate),
            ),
            StateChange::Index(output, _) => Some(Screen::Output(*output, OutputType::Euclid)),
            StateChange::Sequence(SequenceState { output, .. }) => Some(
                Screen::Output(*output, OutputType::Euclid),
            ),
            StateChange::OutputType(screen_state) => match screen_state {
                ScreenState::Output(OutputScreenState { output, config, .. }) => Some(
                    Screen::Output(*output, config.output_type()),
                ),
                ScreenState::Home(_) => None,
            },
            StateChange::NextElement(screen, ..) => Some(*screen),
            StateChange::NextScreen(next_screen) => match next_screen {
                ScreenState::Home(..) => Some(Screen::Home),
                ScreenState::Output(OutputScreenState { output, config, .. }) => Some(
                    Screen::Output(*output, config.output_type()),
                ),
            },
        }
    }
}

} // verus!

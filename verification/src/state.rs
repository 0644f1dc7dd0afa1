use vstd::prelude::*;

use crate::bpm::Bpm;
use crate::bpm_sync::spec_tap_estimate;
use crate::bpm_sync::BpmSync;
use crate::bpm_sync::TAP_TIMEOUT_MICROS;
use crate::command::Command;
use crate::config::OutputConfig;
use crate::element::edit_rel;
use crate::element::lemma_edit_emits_wf;
use crate::element::Element;
use crate::hvec::config_items;
use crate::hvec::config_vec_get;
use crate::hvec::config_vec_new;
use crate::hvec::config_vec_push;
use crate::output::Output;
use crate::output_type::OutputType;
use crate::play_status::PlayStatus;
use crate::screen::Screen;
use crate::screen_state::HomeScreenState;
use crate::screen_state::OutputScreenState;
use crate::screen_state::ScreenState;
use crate::state_change::StateChange;
use crate::sync::Sync;

verus! {

/// The reducer's state: the tempo, transport and sync settings, the running
/// tap measurement, the navigation cursor, and its mirror of the four
/// channel configurations.
pub struct State {
    pub bpm: Bpm,
    pub bpm_sync: Option<BpmSync>,
    pub sync: Sync,
    pub play_status: PlayStatus,
    pub current_element: Element,
    pub current_screen: Screen,
    pub outputs: heapless::Vec<OutputConfig, 4>,
}

impl State {
    /// The four channel configurations, by channel index.
    pub open spec fn configs(self) -> Seq<OutputConfig> {
        config_items(self.outputs)
    }

    /// The channel the current screen shows; the home screen has none.
    pub open spec fn screen_output(self) -> Output {
        match self.current_screen {
            Screen::Output(o, _) => o,
            Screen::Home => Output::A,
        }
    }

    pub open spec fn wf(self) -> bool {
        &&& self.bpm.wf()
        &&& self.configs().len() == 4
        &&& forall|i: int| 0 <= i < 4 ==> (#[trigger] self.configs()[i]).wf()
        &&& self.current_element.on_screen(self.current_screen)
        &&& (match self.current_screen {
            Screen::Home => true,
            Screen::Output(o, t) => t == self.configs()[o.spec_index()].output_type,
        })
        &&& (match self.bpm_sync {
            Some(b) => b.wf(),
            None => true,
        })
    }

    /// The screen the page cycle visits after the current one:
    /// home, channel A, B, C, D, and home again.
    pub open spec fn spec_next_screen(self) -> Screen {
        match self.current_screen {
            Screen::Home => Screen::Output(Output::A, self.configs()[0].output_type),
            Screen::Output(Output::A, _) => Screen::Output(
                Output::B,
                self.configs()[1].output_type,
            ),
            Screen::Output(Output::B, _) => Screen::Output(
                Output::C,
                self.configs()[2].output_type,
            ),
            Screen::Output(Output::C, _) => Screen::Output(
                Output::D,
                self.configs()[3].output_type,
            ),
            Screen::Output(Output::D, _) => Screen::Home,
        }
    }

    /// The snapshot of the current screen, as handed to the display.
    pub open spec fn spec_screen_state(self) -> ScreenState {
        match self.current_screen {
            Screen::Home => ScreenState::Home(
                HomeScreenState { bpm: self.bpm, sync: self.sync, play_status: self.play_status },
            ),
            Screen::Output(o, _) => ScreenState::Output(
                OutputScreenState {
                    output: o,
                    config: self.configs()[o.spec_index()],
                    index: None,
                },
            ),
        }
    }

    /// A state at boot: 120 beats per minute, internal sync, playing, the
    /// cursor on the tempo of the home screen, no tap measurement yet.
    pub fn new(outputs: heapless::Vec<OutputConfig, 4>) -> (r: State)
        requires
            config_items(outputs).len() == 4,
            forall|i: int| 0 <= i < 4 ==> (#[trigger] config_items(outputs)[i]).wf(),
        ensures
            r.wf(),
            r.bpm == Bpm(120u32),
            r.bpm_sync is None,
            r.sync == Sync::Int,
            r.play_status == PlayStatus::Playing,
            r.current_element == Element::Bpm,
            r.current_screen == Screen::Home,
            r.configs() == config_items(outputs),
    {
        State {
            bpm: Bpm(120),
            bpm_sync: None,
            sync: Sync::Int,
            play_status: PlayStatus::Playing,
            current_element: Element::Bpm,
            current_screen: Screen::Home,
            outputs,
        }
    }

    /// A boot state over four freshly initialised channels.
    pub fn boot() -> (r: State)
        ensures
            r.wf(),
            r.bpm == Bpm(120u32),
            r.bpm_sync is None,
            r.sync == Sync::Int,
            r.play_status == PlayStatus::Playing,
            r.current_element == Element::Bpm,
            r.current_screen == Screen::Home,
            r.configs().len() == 4,
            forall|i: int| 0 <= i < 4 ==> #[trigger] r.configs()[i] == OutputConfig::initial(),
    {
        let mut outputs = config_vec_new();
        config_vec_push(&mut outputs, OutputConfig::new());
        config_vec_push(&mut outputs, OutputConfig::new());
        config_vec_push(&mut outputs, OutputConfig::new());
        config_vec_push(&mut outputs, OutputConfig::new());
        State::new(outputs)
    }

    /// Routes one debounced input to its transition. `now` is the monotonic
    /// timestamp of the input in microseconds; only a tap-tempo press reads
    /// it. At most one `StateChange` comes back, and none when the input
    /// changed nothing.
    pub fn handle_command(&mut self, command: Command, now: u64) -> (r: Option<StateChange>)
        requires
            old(self).wf(),
            (match old(self).bpm_sync {
                Some(b) => command == Command::BpmPress ==> now >= b.stamps().last(),
                None => true,
            }),
        ensures
            final(self).wf(),
            (match command {
                Command::EncoderRight => edit_rel(*old(self), *final(self), r, true),
                Command::EncoderLeft => edit_rel(*old(self), *final(self), r, false),
                Command::EncoderPress => {
                    &&& *final(self) == (State {
                        current_element: old(self).current_element.spec_cycle(
                            old(self).current_screen,
                        ),
                        ..*old(self)
                    })
                    &&& r == Some(
                        StateChange::NextElement(
                            old(self).current_screen,
                            old(self).current_element,
                            final(self).current_element,
                        ),
                    )
                },
                Command::PagePress => {
                    &&& *final(self) == (State {
                        current_screen: old(self).spec_next_screen(),
                        current_element: match old(self).spec_next_screen() {
                            Screen::Home => Element::Bpm,
                            Screen::Output(_, _) => Element::Rate,
                        },
                        ..*old(self)
                    })
                    &&& r == Some(StateChange::NextScreen(final(self).spec_screen_state()))
                },
                Command::PlayPress => {
                    &&& *final(self) == (State {
                        play_status: match old(self).play_status {
                            PlayStatus::Playing => PlayStatus::Paused,
                            PlayStatus::Paused => PlayStatus::Playing,
                        },
                        ..*old(self)
                    })
                    &&& r == Some(
                        StateChange::PlayStatus(
                            old(self).current_screen,
                            final(self).play_status,
                        ),
                    )
                },
                Command::BpmPress => bpm_press_rel(*old(self), *final(self), r, now),
            }),
            (match r {
                Some(c) => c.wf(),
                None => true,
            }),
    {
        let r = match command {
            Command::EncoderRight => {
                let current = self.current_element;
                current.next(self)
            },
            Command::EncoderLeft => {
                let current = self.current_element;
                current.prev(self)
            },
            Command::EncoderPress => Some(self.next_element()),
            Command::PagePress => Some(self.next_screen()),
            Command::PlayPress => Some(self.toggle_play()),
            Command::BpmPress => self.bpm_press(now),
        };
        proof {
            if command == Command::EncoderRight {
                lemma_edit_emits_wf(*old(self), *self, r, true);
            }
            if command == Command::EncoderLeft {
                lemma_edit_emits_wf(*old(self), *self, r, false);
            }
        }
        r
    }

    /// Moves the cursor to the next field of the current screen.
    fn next_element(&mut self) -> (r: StateChange)
        requires
            old(self).wf(),
        ensures
            final(self).wf(),
            *final(self) == (State {
                current_element: old(self).current_element.spec_cycle(old(self).current_screen),
                ..*old(self)
            }),
            r == StateChange::NextElement(
                old(self).current_screen,
                old(self).current_element,
                final(self).current_element,
            ),
    {
        let prev_element = self.current_element;
        self.current_element = match self.current_element {
            Element::Bpm => Element::Sync,
            Element::Sync => Element::Bpm,
            Element::Rate => match self.current_screen {
                Screen::Output(_, OutputType::Gate) => Element::Prob,
                _ => Element::Length,
            },
            Element::Length => Element::Density,
            Element::Density => Element::OutputType,
            Element::Prob => Element::Pwm,
            Element::Pwm => Element::OutputType,
            Element::OutputType => Element::Rate,
        };
        StateChange::NextElement(self.current_screen, prev_element, self.current_element)
    }

    /// Moves to the next page and puts the cursor on its first field.
    fn next_screen(&mut self) -> (r: StateChange)
        requires
            old(self).wf(),
        ensures
            final(self).wf(),
            *final(self) == (State {
                current_screen: old(self).spec_next_screen(),
                current_element: match old(self).spec_next_screen() {
                    Screen::Home => Element::Bpm,
                    Screen::Output(_, _) => Element::Rate,
                },
                ..*old(self)
            }),
            r == StateChange::NextScreen(final(self).spec_screen_state()),
    {
        self.current_screen = match self.current_screen {
            Screen::Home => Screen::Output(
                Output::A,
                config_vec_get(&self.outputs, 0).output_type(),
            ),
            Screen::Output(Output::A, _) => Screen::Output(
                Output::B,
                config_vec_get(&self.outputs, 1).output_type(),
            ),
            Screen::Output(Output::B, _) => Screen::Output(
                Output::C,
                config_vec_get(&self.outputs, 2).output_type(),
            ),
            Screen::Output(Output::C, _) => Screen::Output(
                Output::D,
                config_vec_get(&self.outputs, 3).output_type(),
            ),
            Screen::Output(Output::D, _) => Screen::Home,
        };
        self.current_element = match self.current_screen {
            Screen::Home => Element::Bpm,
            Screen::Output(..) => Element::Rate,
        };
        StateChange::NextScreen(self.to_screen_state())
    }

    /// The snapshot of the current screen.
    fn to_screen_state(&self) -> (r: ScreenState)
        requires
            self.wf(),
        ensures
            r == self.spec_screen_state(),
    {
        match self.current_screen {
            Screen::Home => ScreenState::Home(
                HomeScreenState {
                    bpm: self.bpm,
                    sync: self.sync,
                    play_status: self.play_status,
                },
            ),
            Screen::Output(output, _) => {
                let config = config_vec_get(&self.outputs, output.index());
                ScreenState::Output(OutputScreenState { output, config, index: None })
            },
        }
    }

    /// Flips the transport flag.
    fn toggle_play(&mut self) -> (r: StateChange)
        requires
            old(self).wf(),
        ensures
            final(self).wf(),
            *final(self) == (State {
                play_status: match old(self).play_status {
                    PlayStatus::Playing => PlayStatus::Paused,
                    PlayStatus::Paused => PlayStatus::Playing,
                },
                ..*old(self)
            }),
            r == StateChange::PlayStatus(old(self).current_screen, final(self).play_status),
    {
        self.play_status = match self.play_status {
            PlayStatus::Playing => PlayStatus::Paused,
            PlayStatus::Paused => PlayStatus::Playing,
        };
        StateChange::PlayStatus(self.current_screen, self.play_status)
    }

    /// Routes a tap-tempo press: ignored under internal sync, otherwise fed
    /// to the tap estimator, adopting the tempo it estimates.
    fn bpm_press(&mut self, now: u64) -> (r: Option<StateChange>)
        requires
            old(self).wf(),
            (match old(self).bpm_sync {
                Some(b) => now >= b.stamps().last(),
                None => true,
            }),
        ensures
            final(self).wf(),
            bpm_press_rel(*old(self), *final(self), r, now),
    {
        if matches!(self.sync, Sync::Int) {
            None
        } else {
            let mut created = false;
            let est: Option<u32> = match &mut self.bpm_sync {
                Some(b) => b.pulse(now),
                None => {
                    created = true;
                    None
                },
            };
            if created {
                self.bpm_sync = Some(BpmSync::new(now));
            }
            match est {
                Some(e) => {
                    self.bpm = Bpm(e);
                    Some(StateChange::Bpm(Bpm(e)))
                },
                None => None,
            }
        }
    }
}

/// What a tap-tempo press does. Under internal sync it is a no-op. Under
/// external sync the first press only starts a measurement; a press after a
/// timeout restarts it; any other press joins the bounded history (evicting
/// the oldest of eight) and adopts its estimate as the new tempo, emitting
/// that one change.
pub open spec fn bpm_press_rel(pre: State, post: State, r: Option<StateChange>, now: u64) -> bool {
    if pre.sync == Sync::Int {
        post == pre && r is None
    } else {
        match pre.bpm_sync {
            None => {
                &&& (match post.bpm_sync {
                    Some(b) => b.stamps() == seq![now],
                    None => false,
                })
                &&& post.bpm == pre.bpm
                &&& post.sync == pre.sync
                &&& post.play_status == pre.play_status
                &&& post.current_element == pre.current_element
                &&& post.current_screen == pre.current_screen
                &&& post.outputs == pre.outputs
                &&& r is None
            },
            Some(b) => {
                if now - b.stamps().last() >= TAP_TIMEOUT_MICROS {
                    &&& (match post.bpm_sync {
                        Some(b2) => b2.stamps() == seq![now],
                        None => false,
                    })
                    &&& post.bpm == pre.bpm
                    &&& post.sync == pre.sync
                    &&& post.play_status == pre.play_status
                    &&& post.current_element == pre.current_element
                    &&& post.current_screen == pre.current_screen
                    &&& post.outputs == pre.outputs
                    &&& r is None
                } else {
                    let kept = if b.stamps().len() == 8 {
                        b.stamps().drop_first()
                    } else {
                        b.stamps()
                    };
                    let e = spec_tap_estimate(kept.push(now));
                    &&& (match post.bpm_sync {
                        Some(b2) => b2.stamps() == kept.push(now),
                        None => false,
                    })
                    &&& post.bpm == Bpm(e)
                    &&& post.sync == pre.sync
                    &&& post.play_status == pre.play_status
                    &&& post.current_element == pre.current_element
                    &&& post.current_screen == pre.current_screen
                    &&& post.outputs == pre.outputs
                    &&& r == Some(StateChange::Bpm(Bpm(e)))
                }
            },
        }
    }
}

} // verus!

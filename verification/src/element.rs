use vstd::prelude::*;

use crate::bpm_sync::BpmSync;
use crate::config::OutputConfig;
use crate::density::Density;
use crate::hvec::config_vec_get;
use crate::hvec::config_vec_set;
use crate::output::Output;
use crate::output_type::OutputType;
use crate::rate::lemma_rate_next_prev;
use crate::screen::Screen;
use crate::screen_state::OutputScreenState;
use crate::screen_state::ScreenState;
use crate::sequence_state::SequenceState;
use crate::state::State;
use crate::state_change::StateChange;

verus! {

/// The field the navigation cursor addresses: tempo and sync on the home
/// page, a channel's fields on its page.
#[derive(Clone, Copy, Debug, PartialEq, Eq, Structural)]
pub enum Element {
    Rate,
    Pwm,
    Prob,
    Length,
    Density,
    OutputType,
    Bpm,
    Sync,
}

impl Element {
    /// Which fields exist on a screen: tempo and sync at home; on a channel
    /// page the rate, the mode switch, and the mode's own fields.
    pub open spec fn on_screen(self, screen: Screen) -> bool {
        match screen {
            Screen::Home => self == Element::Bpm || self == Element::Sync,
            Screen::Output(_, OutputType::Gate) => self == Element::Rate || self == Element::Prob
                || self == Element::Pwm || self == Element::OutputType,
            Screen::Output(_, OutputType::Euclid) => self == Element::Rate || self
                == Element::Length || self == Element::Density || self == Element::OutputType,
        }
    }

    /// The field after this one in a screen's cycle: `Bpm` and `Sync`
    /// alternate at home; a gate page cycles rate, probability, pulse width,
    /// mode; a Euclidean page cycles rate, length, density, mode.
    pub open spec fn spec_cycle(self, screen: Screen) -> Element {
        match self {
            Element::Bpm => Element::Sync,
            Element::Sync => Element::Bpm,
            Element::Rate => (match screen {
                Screen::Output(_, OutputType::Gate) => Element::Prob,
                _ => Element::Length,
            }),
            Element::Length => Element::Density,
            Element::Density => Element::OutputType,
            Element::Prob => Element::Pwm,
            Element::Pwm => Element::OutputType,
            Element::OutputType => Element::Rate,
        }
    }
}

/// Everything of a state except its channel configurations is unchanged.
pub open spec fn same_core(pre: State, post: State) -> bool {
    &&& post.bpm == pre.bpm
    &&& post.bpm_sync == pre.bpm_sync
    &&& post.sync == pre.sync
    &&& post.play_status == pre.play_status
    &&& post.current_element == pre.current_element
    &&& post.current_screen == pre.current_screen
}

/// What turning the encoder does while the cursor stands on a field:
/// the field steps through its ordered values (`forward` right, backward
/// left), a step that saturated changes nothing and emits nothing, and an
/// actual change is applied to the state and emitted as exactly one
/// `StateChange`. Editing the tempo or the sync source forward also discards
/// the running tap measurement; shrinking a pattern below its density clamps
/// the density to the new length; switching a channel's mode retargets the
/// current screen to the new mode.
pub open spec fn edit_rel(pre: State, post: State, r: Option<StateChange>, forward: bool) -> bool {
    match pre.current_element {
        Element::Bpm => {
            let step = if forward {
                pre.bpm.spec_next()
            } else {
                pre.bpm.spec_prev()
            };
            match step {
                Some(b) => {
                    &&& post == (State {
                        bpm: b,
                        bpm_sync: if forward {
                            None::<BpmSync>
                        } else {
                            pre.bpm_sync
                        },
                        ..pre
                    })
                    &&& r == Some(StateChange::Bpm(b))
                },
                None => post == pre && r is None,
            }
        },
        Element::Sync => {
            let step = if forward {
                pre.sync.spec_next()
            } else {
                pre.sync.spec_prev()
            };
            match step {
                Some(s2) => {
                    &&& post == (State {
                        sync: s2,
                        bpm_sync: if forward {
                            None::<BpmSync>
                        } else {
                            pre.bpm_sync
                        },
                        ..pre
                    })
                    &&& r == Some(StateChange::Sync(s2))
                },
                None => post == pre && r is None,
            }
        },
        Element::Rate => {
            let o = pre.screen_output();
            let cfg = pre.configs()[o.spec_index()];
            let step = if forward {
                cfg.rate.spec_next()
            } else {
                cfg.rate.spec_prev()
            };
            match step {
                Some(rt) => {
                    &&& same_core(pre, post)
                    &&& post.configs() == pre.configs().update(
                        o.spec_index(),
                        OutputConfig { rate: rt, ..cfg },
                    )
                    &&& r == Some(StateChange::Rate(o, cfg.output_type, rt))
                },
                None => post == pre && r is None,
            }
        },
        Element::Pwm => {
            let o = pre.screen_output();
            let cfg = pre.configs()[o.spec_index()];
            let step = if forward {
                cfg.pwm.spec_next()
            } else {
                cfg.pwm.spec_prev()
            };
            match step {
                Some(p2) => {
                    &&& same_core(pre, post)
                    &&& post.configs() == pre.configs().update(
                        o.spec_index(),
                        OutputConfig { pwm: p2, ..cfg },
                    )
                    &&& r == Some(StateChange::Pwm(o, p2))
                },
                None => post == pre && r is None,
            }
        },
        Element::Prob => {
            let o = pre.screen_output();
            let cfg = pre.configs()[o.spec_index()];
            let step = if forward {
                cfg.prob.spec_next()
            } else {
                cfg.prob.spec_prev()
            };
            match step {
                Some(p2) => {
                    &&& same_core(pre, post)
                    &&& post.configs() == pre.configs().update(
                        o.spec_index(),
                        OutputConfig { prob: p2, ..cfg },
                    )
                    &&& r == Some(StateChange::Prob(o, p2))
                },
                None => post == pre && r is None,
            }
        },
        Element::Length => {
            let o = pre.screen_output();
            let cfg = pre.configs()[o.spec_index()];
            let step = if forward {
                cfg.length.spec_next()
            } else {
                cfg.length.spec_prev()
            };
            match step {
                Some(l2) => {
                    let d2 = if cfg.density.0 > l2.0 {
                        Density((cfg.density.0 - 1) as u32)
                    } else {
                        cfg.density
                    };
                    &&& same_core(pre, post)
                    &&& post.configs() == pre.configs().update(
                        o.spec_index(),
                        OutputConfig { length: l2, density: d2, ..cfg },
                    )
                    &&& r == Some(
                        StateChange::Sequence(
                            SequenceState { density: d2, index: None, length: l2, output: o },
                        ),
                    )
                },
                None => post == pre && r is None,
            }
        },
        Element::Density => {
            let o = pre.screen_output();
            let cfg = pre.configs()[o.spec_index()];
            let step = if forward {
                if cfg.density.0 < cfg.length.0 {
                    Some(Density((cfg.density.0 + 1) as u32))
                } else {
                    None
                }
            } else {
                cfg.density.spec_prev()
            };
            match step {
                Some(d2) => {
                    &&& same_core(pre, post)
                    &&& post.configs() == pre.configs().update(
                        o.spec_index(),
                        OutputConfig { density: d2, ..cfg },
                    )
                    &&& r == Some(
                        StateChange::Sequence(
                            SequenceState {
                                density: d2,
                                index: None,
                                length: cfg.length,
                                output: o,
                            },
                        ),
                    )
                },
                None => post == pre && r is None,
            }
        },
        Element::OutputType => {
            let o = pre.screen_output();
            let cfg = pre.configs()[o.spec_index()];
            let step = if forward {
                cfg.output_type.spec_next()
            } else {
                cfg.output_type.spec_prev()
            };
            match step {
                Some(t2) => {
                    let cfg2 = OutputConfig { output_type: t2, ..cfg };
                    &&& post.bpm == pre.bpm
                    &&& post.bpm_sync == pre.bpm_sync
                    &&& post.sync == pre.sync
                    &&& post.play_status == pre.play_status
                    &&& post.current_element == pre.current_element
                    &&& post.current_screen == Screen::Output(o, t2)
                    &&& post.configs() == pre.configs().update(o.spec_index(), cfg2)
                    &&& r == Some(
                        StateChange::OutputType(
                            ScreenState::Output(
                                OutputScreenState { output: o, config: cfg2, index: None },
                            ),
                        ),
                    )
                },
                None => post == pre && r is None,
            }
        },
    }
}

/// No encoder edit leaves a channel with more active steps than its pattern
/// holds; in particular a length step down to one below the density clamps
/// the density to the new length, and a density step up stops at the length.
pub proof fn lemma_density_clamped(pre: State, post: State, r: Option<StateChange>, forward: bool)
    requires
        pre.wf(),
        edit_rel(pre, post, r, forward),
    ensures
        forall|i: int|
            0 <= i < 4 ==> (#[trigger] post.configs()[i]).density.0 <= post.configs()[i].length.0,
        (pre.current_element == Element::Length && !forward && r is Some) ==> {
            let cfg = pre.configs()[pre.screen_output().spec_index()];
            let cfg2 = post.configs()[pre.screen_output().spec_index()];
            &&& cfg2.length.0 == cfg.length.0 - 1
            &&& cfg2.density.0 == (if cfg.density.0 > cfg2.length.0 {
                cfg2.length.0 as int
            } else {
                cfg.density.0 as int
            })
        },
{
}

/// Every change an encoder edit of a well-formed state emits carries values
/// in their supported ranges, so it can be applied to the live scheduler.
pub proof fn lemma_edit_emits_wf(pre: State, post: State, r: Option<StateChange>, forward: bool)
    requires
        pre.wf(),
        edit_rel(pre, post, r, forward),
    ensures
        (match r {
            Some(c) => c.wf(),
            None => true,
        }),
{
    if pre.current_element == Element::Rate && r is Some {
        let cfg = pre.configs()[pre.screen_output().spec_index()];
        lemma_rate_next_prev(cfg.rate);
    }
}

impl Element {
    /// Turns the cursor's field one step up: the encoder's rightward detent.
    pub fn next(&self, state: &mut State) -> (r: Option<StateChange>)
        requires
            old(state).wf(),
            *self == old(state).current_element,
        ensures
            final(state).wf(),
            edit_rel(*old(state), *final(state), r, true),
    {
        self.edit(state, true)
    }

    /// Turns the cursor's field one step down: the encoder's leftward detent.
    pub fn prev(&self, state: &mut State) -> (r: Option<StateChange>)
        requires
            old(state).wf(),
            *self == old(state).current_element,
        ensures
            final(state).wf(),
            edit_rel(*old(state), *final(state), r, false),
    {
        self.edit(state, false)
    }

    /// Applies one encoder detent in either direction.
    fn edit(&self, state: &mut State, forward: bool) -> (r: Option<StateChange>)
        requires
            old(state).wf(),
            *self == old(state).current_element,
        ensures
            final(state).wf(),
            edit_rel(*old(state), *final(state), r, forward),
    {
        match *self {
            Element::Bpm => {
                let step = if forward {
                    state.bpm.next()
                } else {
                    state.bpm.prev()
                };
                match step {
                    Some(b) => {
                        state.bpm = b;
                        if forward {
                            state.bpm_sync = None;
                        }
                        Some(StateChange::Bpm(b))
                    },
                    None => None,
                }
            },
            Element::Sync => {
                let step = if forward {
                    state.sync.next()
                } else {
                    state.sync.prev()
                };
                match step {
                    Some(s2) => {
                        state.sync = s2;
                        if forward {
                            state.bpm_sync = None;
                        }
                        Some(StateChange::Sync(s2))
                    },
                    None => None,
                }
            },
            _ => {
                let output = match state.current_screen {
                    Screen::Output(o, _) => o,
                    Screen::Home => {
                        proof {
                            assert(false);
                        }
                        Output::A
                    },
                };
                let idx = output.index();
                let mut cfg = config_vec_get(&state.outputs, idx);
                match *self {
                    Element::Rate => {
                        let step = if forward {
                            cfg.rate().next()
                        } else {
                            cfg.rate().prev()
                        };
                        match step {
                            Some(rt) => {
                                cfg.set_rate(rt);
                                config_vec_set(&mut state.outputs, idx, cfg);
                                Some(StateChange::Rate(output, cfg.output_type(), rt))
                            },
                            None => None,
                        }
                    },
                    Element::Pwm => {
                        let step = if forward {
                            cfg.pwm().next()
                        } else {
                            cfg.pwm().prev()
                        };
                        match step {
                            Some(p2) => {
                                cfg.set_pwm(p2);
                                config_vec_set(&mut state.outputs, idx, cfg);
                                Some(StateChange::Pwm(output, p2))
                            },
                            None => None,
                        }
                    },
                    Element::Prob => {
                        let step = if forward {
                            cfg.prob().next()
                        } else {
                            cfg.prob().prev()
                        };
                        match step {
                            Some(p2) => {
                                cfg.set_prob(p2);
                                config_vec_set(&mut state.outputs, idx, cfg);
                                Some(StateChange::Prob(output, p2))
                            },
                            None => None,
                        }
                    },
                    Element::Length => {
                        let step = if forward {
                            cfg.length().next()
                        } else {
                            cfg.length().prev()
                        };
                        match step {
                            Some(l2) => {
                                let d2 = if cfg.density().0 > l2.0 {
                                    Density(cfg.density().0 - 1)
                                } else {
                                    cfg.density()
                                };
                                cfg.set_sequence(l2, d2);
                                config_vec_set(&mut state.outputs, idx, cfg);
                                Some(
                                    StateChange::Sequence(SequenceState::new(output, l2, d2)),
                                )
                            },
                            None => None,
                        }
                    },
                    Element::Density => {
                        let step = if forward {
                            if cfg.density().0 < cfg.length().0 {
                                Some(Density(cfg.density().0 + 1))
                            } else {
                                None
                            }
                        } else {
                            cfg.density().prev()
                        };
                        match step {
                            Some(d2) => {
                                let l2 = cfg.length();
                                cfg.set_sequence(l2, d2);
                                config_vec_set(&mut state.outputs, idx, cfg);
                                Some(
                                    StateChange::Sequence(SequenceState::new(output, l2, d2)),
                                )
                            },
                            None => None,
                        }
                    },
                    Element::OutputType => {
                        let step = if forward {
                            cfg.output_type().next()
                        } else {
                            cfg.output_type().prev()
                        };
                        match step {
                            Some(t2) => {
                                cfg.set_output_type(t2);
                                config_vec_set(&mut state.outputs, idx, cfg);
                                state.current_screen = Screen::Output(output, t2);
                                Some(
                                    StateChange::OutputType(
                                        ScreenState::new_output(output, cfg, None),
                                    ),
                                )
                            },
                            None => None,
                        }
                    },
                    _ => {
                        proof {
                            assert(false);
                        }
                        None
                    },
                }
            },
        }
    }
}

} // verus!

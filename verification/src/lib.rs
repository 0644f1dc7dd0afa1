//! Core of a four-channel hardware trigger sequencer: a fixed-resolution
//! tick scheduler with per-channel rate division/multiplication, pulse-width,
//! probability gating and Euclidean rhythms, a tap-tempo estimator, and the
//! command reducer that edits the configuration from encoder and button input.

pub mod animator;
pub mod bpm;
pub mod bpm_sync;
pub mod channel;
pub mod command;
pub mod config;
pub mod density;
pub mod element;
pub mod euclid;
pub mod gate;
pub mod gate_state;
pub mod hvec;
pub mod length;
pub mod output;
pub mod output_type;
pub mod play_status;
pub mod prob;
pub mod pwm;
pub mod rate;
pub mod rng;
pub mod scheduler;
pub mod screen;
pub mod screen_state;
pub mod sequence_state;
pub mod state;
pub mod state_change;
pub mod state_memo;
pub mod sync;
pub mod ticks;

pub use animator::Animator;
pub use bpm::Bpm;
pub use bpm::MAX_BPM;
pub use bpm::MIN_BPM;
pub use bpm_sync::BpmSync;
pub use bpm_sync::TAP_TIMEOUT_MICROS;
pub use channel::ChannelEngine;
pub use channel::TickOutput;
pub use command::Command;
pub use config::OutputConfig;
pub use density::Density;
pub use element::Element;
pub use euclid::euclid;
pub use gate::Gate;
pub use gate_state::GateState;
pub use hvec::config_items;
pub use hvec::stamp_items;
pub use length::Length;
pub use length::MAX_STEPS;
pub use output::Output;
pub use output_type::OutputType;
pub use output_type::OutputTypeString;
pub use play_status::PlayStatus;
pub use prob::Prob;
pub use prob::ProbString;
pub use pwm::Pwm;
pub use rate::Rate;
pub use rate::RateString;
pub use rate::RESOLUTION;
pub use scheduler::TickScheduler;
pub use screen::Screen;
pub use screen_state::HomeScreenState;
pub use screen_state::OutputScreenState;
pub use screen_state::ScreenState;
pub use sequence_state::SequenceState;
pub use state::State;
pub use state_change::StateChange;
pub use state_memo::StateMemo;
pub use sync::Sync;
pub use ticks::resolution;
pub use ticks::tick_duration_micros;

use vstd::prelude::*;

use crate::channel::ChannelEngine;
use crate::channel::TickOutput;
use crate::config::OutputConfig;
use crate::density::Density;
use crate::hvec::config_items;
use crate::hvec::config_vec_get;
use crate::length::Length;
use crate::output_type::OutputType;
use crate::prob::Prob;
use crate::pwm::Pwm;
use crate::rate::Rate;
use crate::ticks::tick_duration_micros;
use crate::ticks::tick_period_micros;

verus! {

/// Base of the per-channel seeds for the probability draws.
pub const CHANNEL_SEED: u32 = 0x2545_F491;

/// The master tick counter and the four channel engines. One call of `tick`
/// advances every channel by one master tick; the tempo only sets how long a
/// tick lasts, so tempo changes never shift any channel's phase.
pub struct TickScheduler {
    pub bpm: u32,
    pub master_tick: u64,
    pub channels: Vec<ChannelEngine>,
}

impl TickScheduler {
    pub open spec fn wf(self) -> bool {
        &&& 1 <= self.bpm <= 300
        &&& self.channels@.len() == 4
        &&& forall|i: int| 0 <= i < 4 ==> self.channels@[i].wf()
    }

    /// Builds the four channel engines from their configurations, each with
    /// its own seed, at the given tempo.
    pub fn new(bpm: u32, outputs: heapless::Vec<OutputConfig, 4>) -> (r: TickScheduler)
        requires
            1 <= bpm <= 300,
            config_items(outputs).len() == 4,
            forall|i: int| 0 <= i < 4 ==> config_items(outputs)[i].wf(),
        ensures
            r.wf(),
            r.bpm == bpm,
            r.master_tick == 0,
            forall|i: int|
                0 <= i < 4 ==> r.channels@[i].is_fresh(
                    config_items(outputs)[i],
                    (CHANNEL_SEED + i) as u32,
                ),
    {
        let mut channels: Vec<ChannelEngine> = Vec::new();
        let mut i: usize = 0;
        while i < 4
            invariant
                i <= 4,
                config_items(outputs).len() == 4,
                forall|j: int| 0 <= j < 4 ==> config_items(outputs)[j].wf(),
                channels@.len() == i,
                forall|j: int| 0 <= j < i ==> channels@[j].wf(),
                forall|j: int|
                    0 <= j < i ==> channels@[j].is_fresh(
                        config_items(outputs)[j],
                        (CHANNEL_SEED + j) as u32,
                    ),
            decreases 4 - i,
        {
            let config = config_vec_get(&outputs, i);
            let seed = CHANNEL_SEED + (i as u32);
            channels.push(ChannelEngine::from_config(&config, seed));
            i = i + 1;
        }
        TickScheduler { bpm, master_tick: 0, channels }
    }

    /// Advances the master clock by one tick: every channel steps once, and
    /// the per-channel events of this tick come back in channel order.
    pub fn tick(&mut self) -> (events: Vec<TickOutput>)
        requires
            old(self).wf(),
            old(self).master_tick < u64::MAX,
        ensures
            final(self).wf(),
            final(self).bpm == old(self).bpm,
            final(self).master_tick == old(self).master_tick + 1,
            forall|i: int|
                0 <= i < 4 ==> final(self).channels@[i] == old(self).channels@[i].step(),
            events@.len() == 4,
            forall|i: int| 0 <= i < 4 ==> events@[i] == old(self).channels@[i].step_output(),
    {
        self.master_tick = self.master_tick + 1;
        let mut events: Vec<TickOutput> = Vec::new();
        let mut i: usize = 0;
        while i < 4
            invariant
                i <= 4,
                self.bpm == old(self).bpm,
                self.master_tick == old(self).master_tick + 1,
                self.channels@.len() == 4,
                events@.len() == i,
                forall|j: int| 0 <= j < 4 ==> self.channels@[j].wf(),
                forall|j: int|
                    0 <= j < i ==> self.channels@[j] == old(self).channels@[j].step(),
                forall|j: int|
                    0 <= j < i ==> events@[j] == old(self).channels@[j].step_output(),
                forall|j: int| i <= j < 4 ==> self.channels@[j] == old(self).channels@[j],
            decreases 4 - i,
        {
            let ev = self.channels[i].tick_step();
            events.push(ev);
            i = i + 1;
        }
        events
    }

    /// The current Euclidean step index of a channel.
    pub fn get_index(&self, idx: usize) -> (r: usize)
        requires
            self.wf(),
            idx < 4,
        ensures
            r == self.channels@[idx as int].index,
    {
        self.channels[idx].index
    }

    /// Changes the master tempo; no channel state moves.
    pub fn set_bpm(&mut self, bpm: u32)
        requires
            old(self).wf(),
            1 <= bpm <= 300,
        ensures
            final(self).wf(),
            final(self).bpm == bpm,
            final(self).master_tick == old(self).master_tick,
            final(self).channels == old(self).channels,
    {
        self.bpm = bpm;
    }

    /// The length of one master tick at the current tempo, in microseconds.
    pub fn tick_duration_micros(&self) -> (r: u64)
        requires
            self.wf(),
        ensures
            r == tick_period_micros(self.bpm as int),
            r > 0,
    {
        tick_duration_micros(self.bpm)
    }

    /// Changes one channel's rate; its phase restarts.
    pub fn set_rate(&mut self, idx: usize, rate: Rate)
        requires
            old(self).wf(),
            idx < 4,
            rate.wf(),
        ensures
            final(self).wf(),
            final(self).bpm == old(self).bpm,
            final(self).master_tick == old(self).master_tick,
            final(self).channels@ == old(self).channels@.update(
                idx as int,
                (ChannelEngine { rate, phase: 0u32, ..old(self).channels@[idx as int] }),
            ),
    {
        self.channels[idx].set_rate(rate);
    }

    /// Changes one channel's pulse width.
    pub fn set_pwm(&mut self, idx: usize, pwm: Pwm)
        requires
            old(self).wf(),
            idx < 4,
        ensures
            final(self).wf(),
            final(self).bpm == old(self).bpm,
            final(self).master_tick == old(self).master_tick,
            final(self).channels@ == old(self).channels@.update(
                idx as int,
                (ChannelEngine { pwm, ..old(self).channels@[idx as int] }),
            ),
    {
        self.channels[idx].set_pwm(pwm);
    }

    /// Changes one channel's firing probability.
    pub fn set_prob(&mut self, idx: usize, prob: Prob)
        requires
            old(self).wf(),
            idx < 4,
        ensures
            final(self).wf(),
            final(self).bpm == old(self).bpm,
            final(self).master_tick == old(self).master_tick,
            final(self).channels@ == old(self).channels@.update(
                idx as int,
                (ChannelEngine { prob, ..old(self).channels@[idx as int] }),
            ),
    {
        self.channels[idx].set_prob(prob);
    }

    /// Switches one channel between gate and Euclidean mode.
    pub fn set_output_type(&mut self, idx: usize, output_type: OutputType)
        requires
            old(self).wf(),
            idx < 4,
        ensures
            final(self).wf(),
            final(self).bpm == old(self).bpm,
            final(self).master_tick == old(self).master_tick,
            final(self).channels@ == old(self).channels@.update(
                idx as int,
                (ChannelEngine { output_type, ..old(self).channels@[idx as int] }),
            ),
    {
        self.channels[idx].set_output_type(output_type);
    }

    /// Changes one channel's pattern size and density; only an actual change
    /// regenerates its pattern and restarts its step index.
    pub fn set_sequence(&mut self, idx: usize, length: Length, density: Density)
        requires
            old(self).wf(),
            idx < 4,
            length.wf(),
            density.wf(),
            density.0 <= length.0,
        ensures
            final(self).wf(),
            final(self).bpm == old(self).bpm,
            final(self).master_tick == old(self).master_tick,
            final(self).channels@.len() == 4,
            forall|j: int|
                0 <= j < 4 && j != idx ==> final(self).channels@[j] == old(self).channels@[j],
            ChannelEngine::set_sequence_rel(
                old(self).channels@[idx as int],
                final(self).channels@[idx as int],
                length,
                density,
            ),
    {
        self.channels[idx].set_sequence(length, density);
    }
}

} // verus!

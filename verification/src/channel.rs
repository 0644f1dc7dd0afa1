use vstd::prelude::*;

use crate::config::OutputConfig;
use crate::density::Density;
use crate::euclid::euclid;
use crate::euclid::euclid_pattern;
use crate::length::Length;
use crate::output_type::OutputType;
use crate::prob::Prob;
use crate::pwm::Pwm;
use crate::rate::Rate;
use crate::rng::rng_draw;
use crate::rng::rng_next;
use crate::rng::spec_rng_draw;
use crate::rng::spec_rng_next;
use vstd::arithmetic::div_mod::lemma_fundamental_div_mod;
use vstd::arithmetic::div_mod::lemma_fundamental_div_mod_converse;
use vstd::arithmetic::div_mod::lemma_mod_bound;
use vstd::arithmetic::div_mod::lemma_add_mod_noop;
use vstd::arithmetic::div_mod::lemma_div_is_ordered;
use vstd::arithmetic::div_mod::lemma_small_mod;
use vstd::arithmetic::div_mod::lemma_div_multiples_vanish;

verus! {

/// What one master tick did to a channel: whether the logical gate level
/// flipped, whether the Euclidean step index moved, and where it now stands.
#[derive(Clone, Copy, Debug, PartialEq, Eq, Structural)]
pub struct TickOutput {
    pub edge_change: bool,
    pub index_change: bool,
    pub index: usize,
}

/// How long a fired period holds its output high: `Pew` is a single tick,
/// every other level is its percentage of the channel period.
pub open spec fn gate_width(pwm: Pwm, period: int) -> int {
    if pwm == Pwm::Pew {
        1
    } else {
        period * pwm.spec_percent() / 100
    }
}

/// The high-phase width of a duty-cycle level over a channel period.
pub fn width_ticks(pwm: Pwm, period: u32) -> (r: u32)
    requires
        period <= 122_880,
    ensures
        r == gate_width(pwm, period as int),
{
    let pct: u32 = match pwm {
        Pwm::Pew => 0,
        Pwm::P10 => 10,
        Pwm::P20 => 20,
        Pwm::P30 => 30,
        Pwm::P40 => 40,
        Pwm::P50 => 50,
        Pwm::P60 => 60,
        Pwm::P70 => 70,
        Pwm::P80 => 80,
        Pwm::P90 => 90,
    };
    if pct == 0 {
        1
    } else {
        period * pct / 100
    }
}

/// Runtime state of one channel: its settings, the generated Euclidean
/// pattern, and the phase of the running period. `phase` counts master ticks
/// and wraps at the channel period; the wrap to zero is an onset.
pub struct ChannelEngine {
    pub rate: Rate,
    pub pwm: Pwm,
    pub prob: Prob,
    pub output_type: OutputType,
    pub length: Length,
    pub density: Density,
    pub pattern: Vec<bool>,
    pub index: usize,
    pub phase: u32,
    pub on: bool,
    pub firing: bool,
    pub rng: u32,
}

impl ChannelEngine {
    pub open spec fn wf(self) -> bool {
        &&& self.rate.wf()
        &&& self.length.wf()
        &&& self.density.wf()
        &&& self.density.0 <= self.length.0
        &&& self.pattern@ == euclid_pattern(self.density.0 as int, self.length.0 as int)
        &&& self.index < self.length.0
        &&& self.phase < self.rate.spec_period_ticks()
    }

    /// Whether the next tick wraps the phase: the start of a new period.
    pub open spec fn spec_onset(self) -> bool {
        self.phase + 1 == self.rate.spec_period_ticks()
    }

    /// The channel after one master tick. The phase advances and wraps at
    /// the channel period. In gate mode an onset draws afresh whether the
    /// period fires, and a fired period stays high while within its pulse
    /// width. In Euclidean mode an onset moves the step index one step
    /// around the pattern, and the output holds the new step's state for
    /// the whole period; Euclidean onsets are never probability-gated.
    pub open spec fn step(self) -> ChannelEngine {
        let period = self.rate.spec_period_ticks();
        let onset = self.phase + 1 == period;
        let phase2: u32 = if onset {
            0
        } else {
            (self.phase + 1) as u32
        };
        match self.output_type {
            OutputType::Gate => {
                let rng2 = if onset {
                    spec_rng_next(self.rng)
                } else {
                    self.rng
                };
                let firing2 = if onset {
                    spec_rng_draw(rng2) < self.prob.spec_percent()
                } else {
                    self.firing
                };
                let on2 = firing2 && (phase2 as int) < gate_width(self.pwm, period);
                ChannelEngine { phase: phase2, rng: rng2, firing: firing2, on: on2, ..self }
            },
            OutputType::Euclid => {
                let index2 = if onset {
                    ((self.index + 1) % (self.length.0 as int)) as usize
                } else {
                    self.index
                };
                let on2 = if onset {
                    self.pattern@[index2 as int]
                } else {
                    self.on
                };
                ChannelEngine { phase: phase2, index: index2, on: on2, ..self }
            },
        }
    }

    /// The events one master tick reports for this channel.
    pub open spec fn step_output(self) -> TickOutput {
        TickOutput {
            edge_change: self.step().on != self.on,
            index_change: self.spec_onset() && self.output_type == OutputType::Euclid,
            index: self.step().index,
        }
    }

    /// A channel freshly derived from a configuration: all settings taken
    /// over, the pattern regenerated, and phase, index and gate at rest.
    pub open spec fn is_fresh(self, config: OutputConfig, seed: u32) -> bool {
        &&& self.rate == config.rate
        &&& self.pwm == config.pwm
        &&& self.prob == config.prob
        &&& self.output_type == config.output_type
        &&& self.length == config.length
        &&& self.density == config.density
        &&& self.pattern@ == euclid_pattern(config.density.0 as int, config.length.0 as int)
        &&& self.index == 0
        &&& self.phase == 0
        &&& self.on == false
        &&& self.firing == false
        &&& self.rng == seed
    }

    /// A channel at the start of its first period, derived from a
    /// configuration, with the given seed for its probability draws.
    pub fn from_config(config: &OutputConfig, seed: u32) -> (r: ChannelEngine)
        requires
            config.wf(),
        ensures
            r.wf(),
            r.is_fresh(*config, seed),
    {
        let mut pattern: Vec<bool> = Vec::new();
        euclid(config.density, config.length, &mut pattern);
        ChannelEngine {
            rate: config.rate,
            pwm: config.pwm,
            prob: config.prob,
            output_type: config.output_type,
            length: config.length,
            density: config.density,
            pattern,
            index: 0,
            phase: 0,
            on: false,
            firing: false,
            rng: seed,
        }
    }

    /// Advances the channel by one master tick and reports its events.
    pub fn tick_step(&mut self) -> (ev: TickOutput)
        requires
            old(self).wf(),
        ensures
            *final(self) == old(self).step(),
            final(self).wf(),
            ev == old(self).step_output(),
    {
        let period = self.rate.period_ticks();
        let onset = self.phase + 1 == period;
        let old_on = self.on;
        if onset {
            self.phase = 0;
        } else {
            self.phase = self.phase + 1;
        }
        match self.output_type {
            OutputType::Gate => {
                if onset {
                    self.rng = rng_next(self.rng);
                    let draw = rng_draw(self.rng);
                    self.firing = draw < self.prob.percent();
                }
                let width = width_ticks(self.pwm, period);
                self.on = self.firing && self.phase < width;
            },
            OutputType::Euclid => {
                if onset {
                    let len: usize = self.length.0 as usize;
                    self.index = (self.index + 1) % len;
                    self.on = self.pattern[self.index];
                }
            },
        }
        let index_change = onset && matches!(self.output_type, OutputType::Euclid);
        TickOutput { edge_change: self.on != old_on, index_change, index: self.index }
    }

    /// The channel after `n` master ticks.
    pub open spec fn run(self, n: nat) -> ChannelEngine
        decreases n,
    {
        if n == 0 {
            self
        } else {
            self.run((n - 1) as nat).step()
        }
    }

    /// How many onsets occur during `n` master ticks.
    pub open spec fn onsets_in_run(self, n: nat) -> int
        decreases n,
    {
        if n == 0 {
            0
        } else {
            self.onsets_in_run((n - 1) as nat) + if self.run((n - 1) as nat).spec_onset() {
                1int
            } else {
                0
            }
        }
    }

    /// How many onsets during `n` master ticks open a high period.
    pub open spec fn high_onsets_in_run(self, n: nat) -> int
        decreases n,
    {
        if n == 0 {
            0
        } else {
            self.high_onsets_in_run((n - 1) as nat) + if self.run((n - 1) as nat).spec_onset()
                && self.run(n).on {
                1int
            } else {
                0
            }
        }
    }

    /// Changes the rate; the phase restarts so it stays within the new,
    /// possibly shorter, period.
    pub fn set_rate(&mut self, rate: Rate)
        requires
            old(self).wf(),
            rate.wf(),
        ensures
            final(self).wf(),
            *final(self) == (ChannelEngine { rate, phase: 0u32, ..*old(self) }),
    {
        self.rate = rate;
        self.phase = 0;
    }

    pub fn set_pwm(&mut self, pwm: Pwm)
        requires
            old(self).wf(),
        ensures
            final(self).wf(),
            *final(self) == (ChannelEngine { pwm, ..*old(self) }),
    {
        self.pwm = pwm;
    }

    pub fn set_prob(&mut self, prob: Prob)
        requires
            old(self).wf(),
        ensures
            final(self).wf(),
            *final(self) == (ChannelEngine { prob, ..*old(self) }),
    {
        self.prob = prob;
    }

    pub fn set_output_type(&mut self, output_type: OutputType)
        requires
            old(self).wf(),
        ensures
            final(self).wf(),
            *final(self) == (ChannelEngine { output_type, ..*old(self) }),
    {
        self.output_type = output_type;
    }

    /// What adopting a pattern size and density does to a channel: repeating
    /// the current values leaves it untouched, an actual change regenerates
    /// the pattern and restarts the step index, and nothing else moves.
    pub open spec fn set_sequence_rel(pre: ChannelEngine, post: ChannelEngine, length: Length,
        density: Density) -> bool {
        if length == pre.length && density == pre.density {
            post == pre
        } else {
            &&& post.length == length
            &&& post.density == density
            &&& post.index == 0
            &&& post.pattern@ == euclid_pattern(density.0 as int, length.0 as int)
            &&& post.rate == pre.rate
            &&& post.pwm == pre.pwm
            &&& post.prob == pre.prob
            &&& post.output_type == pre.output_type
            &&& post.phase == pre.phase
            &&& post.on == pre.on
            &&& post.firing == pre.firing
            &&& post.rng == pre.rng
        }
    }

    /// Adopts a new pattern size and density. Only an actual change
    /// regenerates the pattern and restarts the step index; repeating the
    /// current values leaves the channel untouched.
    pub fn set_sequence(&mut self, length: Length, density: Density)
        requires
            old(self).wf(),
            length.wf(),
            density.wf(),
            density.0 <= length.0,
        ensures
            final(self).wf(),
            ChannelEngine::set_sequence_rel(*old(self), *final(self), length, density),
    {
        if !(self.length == length && self.density == density) {
            euclid(density, length, &mut self.pattern);
            self.length = length;
            self.density = density;
            self.index = 0;
        }
    }
}

/// One step keeps a channel well formed, keeps its settings, and moves its
/// phase one tick forward around the channel period.
pub proof fn lemma_step_settings(c: ChannelEngine)
    requires
        c.wf(),
    ensures
        c.step().wf(),
        c.step().rate == c.rate,
        c.step().output_type == c.output_type,
        c.step().length == c.length,
        c.step().density == c.density,
        c.step().pattern == c.pattern,
        c.step().phase == if c.spec_onset() {
            0int
        } else {
            c.phase + 1
        },
{
    if c.output_type == OutputType::Euclid && c.spec_onset() {
        lemma_mod_bound(c.index + 1, c.length.0 as int);
    }
}

/// After `n` ticks the phase stands `n` further around the period, and
/// exactly one onset has occurred per whole period boundary crossed.
pub proof fn lemma_run_onsets(c: ChannelEngine, n: nat)
    requires
        c.wf(),
    ensures
        c.run(n).wf(),
        c.run(n).rate == c.rate,
        c.run(n).output_type == c.output_type,
        c.run(n).length == c.length,
        c.run(n).density == c.density,
        c.run(n).pattern == c.pattern,
        c.run(n).phase == (c.phase + n) % c.rate.spec_period_ticks(),
        c.onsets_in_run(n) == (c.phase + n) / c.rate.spec_period_ticks(),
    decreases n,
{
    let p = c.rate.spec_period_ticks();
    if n == 0 {
        lemma_fundamental_div_mod_converse(c.phase as int, p, 0, c.phase as int);
    } else {
        lemma_run_onsets(c, (n - 1) as nat);
        let prev = c.run((n - 1) as nat);
        lemma_step_settings(prev);
        let a = c.phase + n;
        let q1 = (a - 1) / p;
        let r1 = (a - 1) % p;
        lemma_fundamental_div_mod(a - 1, p);
        lemma_mod_bound(a - 1, p);
        assert(p * q1 == q1 * p) by (nonlinear_arith);
        if r1 == p - 1 {
            assert(q1 * p + p == (q1 + 1) * p) by (nonlinear_arith);
            lemma_fundamental_div_mod_converse(a, p, q1 + 1, 0);
        } else {
            lemma_fundamental_div_mod_converse(a, p, q1, r1 + 1);
        }
    }
}

/// A Euclidean channel's step index advances once per onset, cycling the
/// pattern: after `n` ticks it stands one step further for every period
/// boundary the run crossed, modulo the pattern length.
pub proof fn lemma_run_index(c: ChannelEngine, n: nat)
    requires
        c.wf(),
        c.output_type == OutputType::Euclid,
    ensures
        c.run(n).index == (c.index + c.onsets_in_run(n)) % (c.length.0 as int),
    decreases n,
{
    let l = c.length.0 as int;
    lemma_run_onsets(c, n);
    if n == 0 {
        lemma_small_mod(c.index as nat, c.length.0 as nat);
    } else {
        lemma_run_index(c, (n - 1) as nat);
        lemma_run_onsets(c, (n - 1) as nat);
        let prev = c.run((n - 1) as nat);
        lemma_step_settings(prev);
        if prev.spec_onset() {
            let a = c.index + c.onsets_in_run((n - 1) as nat);
            if c.length.0 == 1 {
                lemma_mod_bound(a, 1);
                lemma_mod_bound(a % 1 + 1, 1);
                lemma_mod_bound(a + 1, 1);
            } else {
                lemma_add_mod_noop(a, 1, l);
                lemma_small_mod(1nat, c.length.0 as nat);
            }
        }
    }
}

/// The pattern steps the first `k` onsets land on, counted as high or low:
/// onset `j` lands on step `j` modulo the pattern length.
pub open spec fn count_visited(s: Seq<bool>, l: int, k: int) -> int
    decreases k,
{
    if k <= 0 {
        0
    } else {
        count_visited(s, l, k - 1) + if s[k % l] {
            1int
        } else {
            0
        }
    }
}

/// Up to the wrap, the visited steps are the pattern from its second entry.
proof fn lemma_count_visited_prefix(s: Seq<bool>, l: int, k: int)
    requires
        s.len() == l,
        0 <= k < l,
    ensures
        count_visited(s, l, k) == crate::euclid::count_on(s.subrange(1, k + 1)),
    decreases k,
{
    if k == 0 {
        assert(s.subrange(1, 1) =~= Seq::<bool>::empty());
    } else {
        lemma_count_visited_prefix(s, l, k - 1);
        lemma_small_mod(k as nat, l as nat);
        assert(s.subrange(1, k + 1).drop_last() =~= s.subrange(1, k));
        assert(s.subrange(1, k + 1).last() == s[k]);
    }
}

/// One full round of onsets visits every pattern step exactly once: the
/// last onset wraps back to step zero.
proof fn lemma_count_visited_cycle(s: Seq<bool>, l: int)
    requires
        s.len() == l,
        l >= 1,
    ensures
        count_visited(s, l, l) == crate::euclid::count_on(s),
{
    lemma_count_visited_prefix(s, l, l - 1);
    lemma_fundamental_div_mod_converse(l, l, 1, 0);
    crate::euclid::lemma_count_on_split_first(s);
    assert(s.subrange(1, l) =~= s.drop_first());
}

/// From rest, the onsets of a Euclidean channel replay its pattern: after
/// `n` ticks, the onsets that opened high periods are exactly the active
/// steps among the first `n / period` visited.
proof fn lemma_high_onsets_visit(c: ChannelEngine, n: nat)
    requires
        c.wf(),
        c.output_type == OutputType::Euclid,
        c.phase == 0,
        c.index == 0,
    ensures
        c.high_onsets_in_run(n) == count_visited(
            c.pattern@,
            c.length.0 as int,
            n as int / c.rate.spec_period_ticks(),
        ),
    decreases n,
{
    let p = c.rate.spec_period_ticks();
    let l = c.length.0 as int;
    lemma_run_onsets(c, n);
    if n == 0 {
        lemma_fundamental_div_mod_converse(0, p, 0, 0);
    } else {
        lemma_high_onsets_visit(c, (n - 1) as nat);
        lemma_run_onsets(c, (n - 1) as nat);
        lemma_run_index(c, n);
        let prev = c.run((n - 1) as nat);
        lemma_step_settings(prev);
        let m = n as int;
        let q1 = (m - 1) / p;
        let r1 = (m - 1) % p;
        lemma_fundamental_div_mod(m - 1, p);
        lemma_mod_bound(m - 1, p);
        assert(p * q1 == q1 * p) by (nonlinear_arith);
        if r1 == p - 1 {
            assert(q1 * p + p == (q1 + 1) * p) by (nonlinear_arith);
            lemma_fundamental_div_mod_converse(m, p, q1 + 1, 0);
        } else {
            lemma_fundamental_div_mod_converse(m, p, q1, r1 + 1);
        }
    }
}

/// Over one full cycle from rest — pattern length times channel period in
/// master ticks — a Euclidean channel opens exactly as many high periods as
/// its pattern has active steps: its density.
pub proof fn lemma_euclid_cycle_density(c: ChannelEngine, n: nat)
    requires
        c.wf(),
        c.output_type == OutputType::Euclid,
        c.phase == 0,
        c.index == 0,
        n == c.length.0 as int * c.rate.spec_period_ticks(),
    ensures
        c.high_onsets_in_run(n) == c.density.0,
{
    let p = c.rate.spec_period_ticks();
    let l = c.length.0 as int;
    lemma_high_onsets_visit(c, n);
    assert(l * p == p * l) by (nonlinear_arith);
    lemma_div_multiples_vanish(l, p);
    lemma_count_visited_cycle(c.pattern@, l);
    crate::euclid::lemma_euclid_density(c.density.0 as int, l);
}

/// A gate-mode onset under certain probability always fires, and the fresh
/// period opens with the output high: every duty-cycle level spans at least
/// the onset tick.
pub proof fn lemma_certain_onset_fires(c: ChannelEngine)
    requires
        c.wf(),
        c.output_type == OutputType::Gate,
        c.prob == Prob::P100,
        c.spec_onset(),
    ensures
        c.step().firing,
        c.step().on,
{
    let period = c.rate.spec_period_ticks();
    lemma_mod_bound(spec_rng_next(c.rng) as int / 0x1_0000, 100);
    if c.pwm != Pwm::Pew {
        assert(period >= 30);
        assert(period * c.pwm.spec_percent() >= 300) by (nonlinear_arith)
            requires
                period >= 30,
                c.pwm.spec_percent() >= 10,
        ;
        lemma_div_is_ordered(300, period * c.pwm.spec_percent(), 100);
    }
}

/// With both channels starting a period, a rate of `Mult(4)` yields exactly
/// twice the onsets of `Mult(2)` over any whole number of `Mult(2)` periods
/// of master ticks.
pub proof fn lemma_mult_four_doubles_mult_two(c2: ChannelEngine, c4: ChannelEngine, n: nat)
    requires
        c2.wf(),
        c4.wf(),
        c2.rate == Rate::Mult(2u32),
        c4.rate == Rate::Mult(4u32),
        c2.phase == 0,
        c4.phase == 0,
        n % 960 == 0,
    ensures
        c4.onsets_in_run(n) == 2 * c2.onsets_in_run(n),
{
    lemma_run_onsets(c2, n);
    lemma_run_onsets(c4, n);
    let m = n as int / 960;
    lemma_fundamental_div_mod(n as int, 960);
    assert(960 * m == 480 * (2 * m)) by (nonlinear_arith);
    lemma_fundamental_div_mod_converse(n as int, 480, 2 * m, 0);
}

} // verus!

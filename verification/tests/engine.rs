use toad_time::{
    euclid, resolution, tick_duration_micros, Density, Length, OutputConfig, OutputType, Prob,
    Pwm, Rate, TickScheduler,
};

fn configs_with_a(a: OutputConfig) -> heapless::Vec<OutputConfig, 4> {
    let mut outputs: heapless::Vec<OutputConfig, 4> = heapless::Vec::new();
    outputs.push(a).ok();
    outputs.push(OutputConfig::new()).ok();
    outputs.push(OutputConfig::new()).ok();
    outputs.push(OutputConfig::new()).ok();
    outputs
}

#[test]
fn euclid_three_over_eight_is_the_classic_pattern() {
    let mut pattern: Vec<bool> = Vec::new();
    euclid(Density(3), Length(8), &mut pattern);
    assert_eq!(
        pattern,
        vec![true, false, false, true, false, false, true, false]
    );
}

#[test]
fn euclid_density_counts_hold_over_all_sizes() {
    for length in 1u32..=16 {
        for density in 1..=length {
            let mut pattern: Vec<bool> = Vec::new();
            euclid(Density(density), Length(length), &mut pattern);
            assert_eq!(pattern.len(), length as usize);
            let active = pattern.iter().filter(|b| **b).count();
            assert_eq!(active as u32, density, "d={} l={}", density, length);
        }
    }
}

#[test]
fn euclid_full_and_single_densities() {
    let mut pattern: Vec<bool> = Vec::new();
    euclid(Density(8), Length(8), &mut pattern);
    assert_eq!(pattern, vec![true; 8]);
    euclid(Density(1), Length(5), &mut pattern);
    assert_eq!(pattern, vec![true, false, false, false, false]);
}

#[test]
fn tick_period_has_exact_values() {
    assert_eq!(resolution(), 1920);
    assert_eq!(tick_duration_micros(1), 31_250);
    assert_eq!(tick_duration_micros(120), 260);
    assert_eq!(tick_duration_micros(300), 104);
}

#[test]
fn tick_period_positive_and_decreasing() {
    let mut prev = u64::MAX;
    for bpm in 1u32..=300 {
        let d = tick_duration_micros(bpm);
        assert!(d > 0);
        assert!(d <= prev);
        if bpm <= 177 {
            assert!(d < prev, "strict at {}", bpm);
        }
        prev = d;
    }
}

#[test]
fn euclid_channel_fires_exactly_density_periods_per_cycle() {
    let a = OutputConfig {
        rate: Rate::Unity,
        pwm: Pwm::P50,
        prob: Prob::P100,
        length: Length(8),
        density: Density(3),
        output_type: OutputType::Euclid,
    };
    let mut sched = TickScheduler::new(120, configs_with_a(a));
    let period = Rate::Unity.period_ticks() as usize;

    let mut expected: Vec<bool> = Vec::new();
    euclid(Density(3), Length(8), &mut expected);

    let mut highs = 0usize;
    let mut onsets = 0usize;
    for _ in 0..8 * period {
        let events = sched.tick();
        if events[0].index_change {
            onsets += 1;
            let idx = events[0].index;
            let on = sched.channels[0].on;
            assert_eq!(on, expected[idx]);
            if on {
                highs += 1;
            }
        }
    }
    assert_eq!(onsets, 8);
    assert_eq!(highs, 3);
}

#[test]
fn mult_four_doubles_mult_two_onsets() {
    let gate = |rate: Rate| OutputConfig {
        rate,
        pwm: Pwm::P50,
        prob: Prob::P100,
        length: Length(16),
        density: Density(4),
        output_type: OutputType::Gate,
    };
    let ticks = 4 * 960;
    let mut onsets2 = 0usize;
    let mut onsets4 = 0usize;
    let mut sched2 = TickScheduler::new(120, configs_with_a(gate(Rate::Mult(2))));
    let mut sched4 = TickScheduler::new(120, configs_with_a(gate(Rate::Mult(4))));
    for _ in 0..ticks {
        sched2.tick();
        sched4.tick();
        if sched2.channels[0].phase == 0 {
            onsets2 += 1;
        }
        if sched4.channels[0].phase == 0 {
            onsets4 += 1;
        }
    }
    assert_eq!(onsets2, 4);
    assert_eq!(onsets4, 8);
    assert_eq!(onsets4, 2 * onsets2);
}

#[test]
fn certain_probability_always_fires_and_respects_pulse_width() {
    let a = OutputConfig {
        rate: Rate::Mult(64),
        pwm: Pwm::P50,
        prob: Prob::P100,
        length: Length(16),
        density: Density(4),
        output_type: OutputType::Gate,
    };
    let mut sched = TickScheduler::new(120, configs_with_a(a));
    let period = 30usize;
    // skip the first, partially observed period
    for _ in 0..period {
        sched.tick();
    }
    // over one full period the output is high for exactly half the ticks
    let mut high_ticks = 0usize;
    for _ in 0..period {
        sched.tick();
        if sched.channels[0].on {
            high_ticks += 1;
        }
    }
    assert_eq!(high_ticks, period / 2);
}

#[test]
fn pew_pulses_last_a_single_tick() {
    let a = OutputConfig {
        rate: Rate::Mult(64),
        pwm: Pwm::Pew,
        prob: Prob::P100,
        length: Length(16),
        density: Density(4),
        output_type: OutputType::Gate,
    };
    let mut sched = TickScheduler::new(120, configs_with_a(a));
    let period = 30usize;
    for _ in 0..period {
        sched.tick();
    }
    let mut high_ticks = 0usize;
    for _ in 0..period {
        sched.tick();
        if sched.channels[0].on {
            high_ticks += 1;
        }
    }
    assert_eq!(high_ticks, 1);
}

#[test]
fn half_probability_fires_some_onsets_and_skips_others() {
    let a = OutputConfig {
        rate: Rate::Mult(64),
        pwm: Pwm::P50,
        prob: Prob::P50,
        length: Length(16),
        density: Density(4),
        output_type: OutputType::Gate,
    };
    let mut sched = TickScheduler::new(120, configs_with_a(a));
    let mut fired = 0usize;
    let mut onsets = 0usize;
    for _ in 0..200 * 30 {
        sched.tick();
        if sched.channels[0].phase == 0 {
            onsets += 1;
            if sched.channels[0].firing {
                fired += 1;
            }
        }
    }
    assert_eq!(onsets, 200);
    assert!(fired > 0);
    assert!(fired < onsets);
}

#[test]
fn division_rates_stretch_the_period() {
    let a = OutputConfig {
        rate: Rate::Div(2),
        pwm: Pwm::P50,
        prob: Prob::P100,
        length: Length(16),
        density: Density(4),
        output_type: OutputType::Gate,
    };
    let mut sched = TickScheduler::new(120, configs_with_a(a));
    let mut onsets = 0usize;
    for _ in 0..2 * 3840 {
        sched.tick();
        if sched.channels[0].phase == 0 {
            onsets += 1;
        }
    }
    assert_eq!(onsets, 2);
}

#[test]
fn set_sequence_regenerates_only_on_change() {
    let mut sched = TickScheduler::new(120, configs_with_a(OutputConfig::new()));
    sched.set_output_type(0, OutputType::Euclid);
    sched.set_sequence(0, Length(8), Density(3));
    assert_eq!(sched.channels[0].index, 0);
    // walk the index off zero, then repeat the same sequence: nothing resets
    let period = Rate::Unity.period_ticks() as usize;
    for _ in 0..period {
        sched.tick();
    }
    assert_eq!(sched.channels[0].index, 1);
    sched.set_sequence(0, Length(8), Density(3));
    assert_eq!(sched.channels[0].index, 1);
    sched.set_sequence(0, Length(8), Density(4));
    assert_eq!(sched.channels[0].index, 0);
}

#[test]
fn set_bpm_changes_only_the_tick_length() {
    let mut sched = TickScheduler::new(120, configs_with_a(OutputConfig::new()));
    assert_eq!(sched.tick_duration_micros(), 260);
    sched.tick();
    let phase = sched.channels[0].phase;
    sched.set_bpm(240);
    assert_eq!(sched.tick_duration_micros(), 130);
    assert_eq!(sched.channels[0].phase, phase);
}

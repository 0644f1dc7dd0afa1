use toad_time::{
    Animator, Bpm, Command, Density, GateState, Length, Output, OutputConfig, OutputType,
    PlayStatus, Prob, Pwm, Rate, Screen, ScreenState, State, StateChange, StateMemo, Sync,
    TickScheduler,
};

fn boot_scheduler() -> TickScheduler {
    let mut outputs: heapless::Vec<OutputConfig, 4> = heapless::Vec::new();
    for _ in 0..4 {
        outputs.push(OutputConfig::new()).ok();
    }
    TickScheduler::new(120, outputs)
}

#[test]
fn state_changes_reach_the_scheduler() {
    let mut sched = boot_scheduler();

    StateChange::Bpm(Bpm(200)).update_seq(&mut sched);
    assert_eq!(sched.bpm, 200);

    StateChange::Rate(Output::B, OutputType::Gate, Rate::Mult(4)).update_seq(&mut sched);
    assert_eq!(sched.channels[1].rate, Rate::Mult(4));

    StateChange::Pwm(Output::C, Pwm::P20).update_seq(&mut sched);
    assert_eq!(sched.channels[2].pwm, Pwm::P20);

    StateChange::Prob(Output::D, Prob::P30).update_seq(&mut sched);
    assert_eq!(sched.channels[3].prob, Prob::P30);

    let seq_change = StateChange::Sequence(toad_time::SequenceState {
        density: Density(3),
        index: None,
        length: Length(8),
        output: Output::A,
    });
    seq_change.update_seq(&mut sched);
    assert_eq!(sched.channels[0].length, Length(8));
    assert_eq!(sched.channels[0].density, Density(3));
    assert_eq!(sched.channels[0].index, 0);

    let cfg = OutputConfig {
        output_type: OutputType::Euclid,
        ..OutputConfig::new()
    };
    StateChange::OutputType(ScreenState::new_output(Output::A, cfg, None)).update_seq(&mut sched);
    assert_eq!(sched.channels[0].output_type, OutputType::Euclid);

    // navigation and transport changes leave the scheduler untouched
    let bpm_before = sched.bpm;
    StateChange::PlayStatus(Screen::Home, PlayStatus::Paused).update_seq(&mut sched);
    StateChange::Frame.update_seq(&mut sched);
    StateChange::Sync(Sync::Ext).update_seq(&mut sched);
    assert_eq!(sched.bpm, bpm_before);
}

#[test]
fn update_index_reports_the_running_step() {
    let mut sched = boot_scheduler();
    StateChange::Sequence(toad_time::SequenceState {
        density: Density(3),
        index: None,
        length: Length(8),
        output: Output::A,
    })
    .update_seq(&mut sched);
    let cfg = OutputConfig {
        output_type: OutputType::Euclid,
        length: Length(8),
        density: Density(3),
        ..OutputConfig::new()
    };
    StateChange::OutputType(ScreenState::new_output(Output::A, cfg, None)).update_seq(&mut sched);

    // run two full unity periods: the step index advances to 2
    for _ in 0..2 * 1920 {
        sched.tick();
    }
    assert_eq!(sched.get_index(0), 2);

    let seq_change = StateChange::Sequence(toad_time::SequenceState {
        density: Density(3),
        index: None,
        length: Length(8),
        output: Output::A,
    });
    match seq_change.update_index(&sched) {
        StateChange::Sequence(s) => assert_eq!(s.index, Some(2)),
        _ => panic!("variant must be kept"),
    }

    let nav = StateChange::NextScreen(ScreenState::new_output(Output::A, cfg, None));
    match nav.update_index(&sched) {
        StateChange::NextScreen(ScreenState::Output(o)) => assert_eq!(o.index, Some(2)),
        _ => panic!("variant must be kept"),
    }

    let home = StateChange::NextScreen(ScreenState::new_home(
        Bpm(120),
        Sync::Int,
        PlayStatus::Playing,
    ));
    match home.update_index(&sched) {
        StateChange::NextScreen(ScreenState::Home(_)) => {}
        _ => panic!("home snapshots carry no index"),
    }
}

#[test]
fn memo_follows_navigation_changes_only() {
    let home = ScreenState::new_home(Bpm(120), Sync::Int, PlayStatus::Playing);
    let mut memo = StateMemo::new(home);
    let cfg = OutputConfig {
        output_type: OutputType::Euclid,
        ..OutputConfig::new()
    };
    memo.update(&StateChange::Bpm(Bpm(99)));
    assert!(matches!(memo.current_screen, ScreenState::Home(_)));
    memo.update(&StateChange::NextScreen(ScreenState::new_output(
        Output::B,
        cfg,
        None,
    )));
    match memo.current_screen {
        ScreenState::Output(o) => assert_eq!(o.output, Output::B),
        _ => panic!("memo must follow the screen"),
    }
}

#[test]
fn screen_is_euclid_only_for_the_matching_output() {
    let euclid_b = Screen::Output(Output::B, OutputType::Euclid);
    assert!(euclid_b.is_euclid(Output::B));
    assert!(!euclid_b.is_euclid(Output::A));
    assert!(!Screen::Home.is_euclid(Output::B));
    assert!(!Screen::Output(Output::B, OutputType::Gate).is_euclid(Output::B));
}

#[test]
fn screen_state_indices() {
    let home = ScreenState::new_home(Bpm(120), Sync::Int, PlayStatus::Playing);
    assert_eq!(home.index(), None);
    let mut out = ScreenState::new_output(Output::C, OutputConfig::new(), None);
    assert_eq!(out.index(), Some(2));
    out.set_index(5);
    match out {
        ScreenState::Output(o) => assert_eq!(o.index, Some(5)),
        _ => panic!("still an output snapshot"),
    }
    assert_eq!(out.screen(), Screen::Output(Output::C, OutputType::Gate));
}

#[test]
fn outputs_map_to_indices_and_back() {
    for (k, o) in [Output::A, Output::B, Output::C, Output::D].iter().enumerate() {
        assert_eq!(Output::into_output(k), *o);
        assert_eq!(o.index(), k);
    }
}

#[test]
fn gate_state_defaults() {
    let g = GateState::new();
    assert_eq!(g.rate, Rate::Unity);
    assert_eq!(g.pwm, Pwm::P50);
    assert_eq!(g.prob, Prob::P100);
    let d = GateState::default();
    assert_eq!(d.rate, Rate::Unity);
}

#[test]
fn animator_wraps_at_the_frame_span() {
    let mut a = Animator::new(1920, 960);
    assert!(a.next_frame());
    a.update();
    assert!(!a.next_frame());
    a.update();
    assert!(a.next_frame());
}

#[test]
fn changes_know_their_screen() {
    let c = StateChange::Bpm(Bpm(120));
    assert_eq!(c.screen_of(), Some(Screen::Home));
    let c = StateChange::Prob(Output::B, Prob::P50);
    assert_eq!(c.screen_of(), Some(Screen::Output(Output::B, OutputType::Gate)));
    let c = StateChange::Index(Output::C, 3);
    assert_eq!(c.screen_of(), Some(Screen::Output(Output::C, OutputType::Euclid)));
    assert_eq!(StateChange::Frame.screen_of(), None);
    let c = StateChange::PlayStatus(Screen::Output(Output::A, OutputType::Gate), PlayStatus::Paused);
    assert_eq!(c.screen_of(), None);
}

#[test]
fn full_path_from_command_to_scheduler() {
    let mut st = State::boot();
    let mut sched = boot_scheduler();
    let mut memo = StateMemo::new(ScreenState::new_home(
        Bpm(120),
        Sync::Int,
        PlayStatus::Playing,
    ));

    // navigate to channel A and slow it to half tempo
    let mut apply = |st: &mut State, sched: &mut TickScheduler, memo: &mut StateMemo, cmd| {
        if let Some(change) = st.handle_command(cmd, 0) {
            memo.update(&change);
            change.update_seq(sched);
        }
    };
    apply(&mut st, &mut sched, &mut memo, Command::PagePress);
    apply(&mut st, &mut sched, &mut memo, Command::EncoderLeft);
    assert_eq!(sched.channels[0].rate, Rate::Div(2));
    assert_eq!(sched.channels[0].phase, 0);
}

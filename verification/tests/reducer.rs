use toad_time::{
    Bpm, BpmSync, Command, Density, Element, Length, Output, OutputConfig, OutputType, Prob, Pwm,
    Rate, Screen, ScreenState, SequenceState, State, StateChange, Sync,
};

#[test]
fn page_press_four_times_returns_home() {
    let mut st = State::boot();
    assert_eq!(st.current_screen, Screen::Home);
    st.handle_command(Command::PagePress, 0);
    assert_eq!(st.current_screen, Screen::Output(Output::A, OutputType::Gate));
    st.handle_command(Command::PagePress, 1);
    assert_eq!(st.current_screen, Screen::Output(Output::B, OutputType::Gate));
    st.handle_command(Command::PagePress, 2);
    assert_eq!(st.current_screen, Screen::Output(Output::C, OutputType::Gate));
    st.handle_command(Command::PagePress, 3);
    assert_eq!(st.current_screen, Screen::Output(Output::D, OutputType::Gate));
    let _ = st.handle_command(Command::PagePress, 4);
    assert_eq!(st.current_screen, Screen::Home);
    assert_eq!(st.current_element, Element::Bpm);
}

#[test]
fn encoder_edits_bpm_and_saturates_silently() {
    let mut st = State::boot();
    let r = st.handle_command(Command::EncoderRight, 0);
    assert_eq!(r, Some(StateChange::Bpm(Bpm(121))));
    assert_eq!(st.bpm, Bpm(121));
    for t in 0..200 {
        st.handle_command(Command::EncoderRight, t);
    }
    assert_eq!(st.bpm, Bpm(300));
    let r = st.handle_command(Command::EncoderRight, 999);
    assert_eq!(r, None);
    assert_eq!(st.bpm, Bpm(300));
}

#[test]
fn element_cycle_depends_on_output_type() {
    let mut st = State::boot();
    st.handle_command(Command::PagePress, 0);
    assert_eq!(st.current_element, Element::Rate);
    st.handle_command(Command::EncoderPress, 1);
    assert_eq!(st.current_element, Element::Prob);
    st.handle_command(Command::EncoderPress, 2);
    assert_eq!(st.current_element, Element::Pwm);
    st.handle_command(Command::EncoderPress, 3);
    assert_eq!(st.current_element, Element::OutputType);
    st.handle_command(Command::EncoderPress, 4);
    assert_eq!(st.current_element, Element::Rate);

    // switch channel A to Euclid: the cycle changes
    st.handle_command(Command::EncoderPress, 5);
    st.handle_command(Command::EncoderPress, 6);
    st.handle_command(Command::EncoderPress, 7);
    assert_eq!(st.current_element, Element::OutputType);
    let r = st.handle_command(Command::EncoderRight, 8);
    assert!(matches!(r, Some(StateChange::OutputType(_))));
    assert_eq!(
        st.current_screen,
        Screen::Output(Output::A, OutputType::Euclid)
    );
    st.handle_command(Command::EncoderPress, 9);
    assert_eq!(st.current_element, Element::Rate);
    st.handle_command(Command::EncoderPress, 10);
    assert_eq!(st.current_element, Element::Length);
    st.handle_command(Command::EncoderPress, 11);
    assert_eq!(st.current_element, Element::Density);
    st.handle_command(Command::EncoderPress, 12);
    assert_eq!(st.current_element, Element::OutputType);
}

/// Drives channel A to Euclid mode and leaves the cursor on the named field.
fn euclid_channel_a_on(field: Element) -> State {
    let mut st = State::boot();
    st.handle_command(Command::PagePress, 0);
    st.handle_command(Command::EncoderPress, 1);
    st.handle_command(Command::EncoderPress, 2);
    st.handle_command(Command::EncoderPress, 3);
    st.handle_command(Command::EncoderRight, 4); // Gate -> Euclid
    loop {
        if st.current_element == field {
            break;
        }
        st.handle_command(Command::EncoderPress, 5);
    }
    st
}

#[test]
fn shrinking_length_below_density_clamps_density() {
    let mut st = euclid_channel_a_on(Element::Density);
    // raise density to the full pattern length of 16
    for t in 0..20 {
        st.handle_command(Command::EncoderRight, t);
    }
    assert_eq!((st.outputs[0].length, st.outputs[0].density), (Length(16), Density(16)));

    // density saturates at the length: no message
    let r = st.handle_command(Command::EncoderRight, 30);
    assert_eq!(r, None);

    // now shrink the length: density follows it down
    loop {
        if st.current_element == Element::Length {
            break;
        }
        st.handle_command(Command::EncoderPress, 31);
    }
    let r = st.handle_command(Command::EncoderLeft, 32);
    assert_eq!(
        r,
        Some(StateChange::Sequence(SequenceState {
            density: Density(15),
            index: None,
            length: Length(15),
            output: Output::A,
        }))
    );
    assert_eq!((st.outputs[0].length, st.outputs[0].density), (Length(15), Density(15)));
}

#[test]
fn density_cannot_exceed_length() {
    let mut st = euclid_channel_a_on(Element::Length);
    // shrink the pattern to 4 steps
    for t in 0..12 {
        st.handle_command(Command::EncoderLeft, t);
    }
    loop {
        if st.current_element == Element::Density {
            break;
        }
        st.handle_command(Command::EncoderPress, 20);
    }
    assert_eq!((st.outputs[0].length, st.outputs[0].density), (Length(4), Density(4)));
    let r = st.handle_command(Command::EncoderRight, 21);
    assert_eq!(r, None);
    assert_eq!((st.outputs[0].length, st.outputs[0].density), (Length(4), Density(4)));
}

#[test]
fn play_press_toggles_transport() {
    let mut st = State::boot();
    let r = st.handle_command(Command::PlayPress, 0);
    assert!(matches!(r, Some(StateChange::PlayStatus(Screen::Home, _))));
    let r2 = st.handle_command(Command::PlayPress, 1);
    assert!(matches!(r2, Some(StateChange::PlayStatus(Screen::Home, _))));
}

#[test]
fn bpm_press_is_a_no_op_under_internal_sync() {
    let mut st = State::boot();
    assert_eq!(st.sync, Sync::Int);
    let r = st.handle_command(Command::BpmPress, 1_000_000);
    assert_eq!(r, None);
    assert_eq!(st.bpm, Bpm(120));
}

/// Puts the sync source on external, with the cursor on the sync field.
fn external_sync_state() -> State {
    let mut st = State::boot();
    st.handle_command(Command::EncoderPress, 0); // Bpm -> Sync
    let r = st.handle_command(Command::EncoderRight, 1); // Int -> Ext
    assert_eq!(r, Some(StateChange::Sync(Sync::Ext)));
    st
}

#[test]
fn three_taps_at_half_a_second_estimate_120_bpm() {
    let mut st = external_sync_state();
    let t0 = 10_000_000u64;
    assert_eq!(st.handle_command(Command::BpmPress, t0), None);
    assert_eq!(
        st.handle_command(Command::BpmPress, t0 + 500_000),
        Some(StateChange::Bpm(Bpm(120)))
    );
    assert_eq!(
        st.handle_command(Command::BpmPress, t0 + 1_000_000),
        Some(StateChange::Bpm(Bpm(120)))
    );
    assert_eq!(st.bpm, Bpm(120));
}

#[test]
fn a_six_second_gap_clears_the_tap_history() {
    let mut st = external_sync_state();
    let t0 = 10_000_000u64;
    st.handle_command(Command::BpmPress, t0);
    st.handle_command(Command::BpmPress, t0 + 500_000);
    assert_eq!(st.bpm, Bpm(120));
    // six seconds of silence: the next tap estimates nothing
    let r = st.handle_command(Command::BpmPress, t0 + 6_500_000);
    assert_eq!(r, None);
    assert_eq!(st.bpm, Bpm(120));
    // and the tap after it measures only the fresh gap
    let r = st.handle_command(Command::BpmPress, t0 + 6_900_000);
    assert_eq!(r, Some(StateChange::Bpm(Bpm(150))));
}

#[test]
fn tap_estimates_clamp_to_the_supported_range() {
    let mut sync = BpmSync::new(1_000_000);
    // two taps in the same microsecond saturate at the fastest tempo
    assert_eq!(sync.pulse(1_000_000), Some(300));
    // a fast tap run is clamped to 300
    let mut sync2 = BpmSync::new(2_000_000);
    assert_eq!(sync2.pulse(2_100_000), Some(300));
    // a slow, steady 30 BPM run
    let mut sync3 = BpmSync::new(10_000_000);
    assert_eq!(sync3.pulse(12_000_000), Some(30));
}

#[test]
fn tap_history_keeps_the_last_eight_taps() {
    let mut sync = BpmSync::new(0);
    // nine taps 1s apart: the window holds eight, the mean stays 1s
    for k in 1..=9u64 {
        assert_eq!(sync.pulse(k * 1_000_000), Some(60));
    }
    // a final quick tap shifts the mean of the surviving seven gaps
    let est = sync.pulse(9_200_000).unwrap();
    assert_eq!(est, 67); // seven gaps spanning 6.2 s: 60_000_000 / 885_714
}

#[test]
fn editing_the_bpm_discards_the_tap_measurement() {
    let mut st = external_sync_state();
    st.handle_command(Command::BpmPress, 1_000_000);
    assert!(st.bpm_sync.is_some());
    st.handle_command(Command::EncoderPress, 2); // Sync -> Bpm
    st.handle_command(Command::EncoderRight, 3);
    assert!(st.bpm_sync.is_none());
}

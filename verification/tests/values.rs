use toad_time::{Bpm, Density, Length, OutputType, Prob, ProbString, Pwm, Rate, RateString, Sync};

#[test]
fn rate_table_walks_from_slowest_to_fastest() {
    let order = [
        Rate::Div(64),
        Rate::Div(32),
        Rate::Div(16),
        Rate::Div(8),
        Rate::Div(5),
        Rate::Div(4),
        Rate::Div(3),
        Rate::Div(2),
        Rate::Unity,
        Rate::Mult(2),
        Rate::Mult(3),
        Rate::Mult(4),
        Rate::Mult(5),
        Rate::Mult(8),
        Rate::Mult(16),
        Rate::Mult(32),
        Rate::Mult(64),
    ];
    for pair in order.windows(2) {
        assert_eq!(pair[0].next(), Some(pair[1]));
        assert_eq!(pair[1].prev(), Some(pair[0]));
    }
}

#[test]
fn rate_saturates_at_both_ends() {
    assert_eq!(Rate::Div(64).prev(), None);
    assert_eq!(Rate::Mult(64).next(), None);
}

#[test]
fn rate_next_prev_round_trips() {
    let order = [
        Rate::Div(64),
        Rate::Div(32),
        Rate::Div(16),
        Rate::Div(8),
        Rate::Div(5),
        Rate::Div(4),
        Rate::Div(3),
        Rate::Div(2),
        Rate::Unity,
        Rate::Mult(2),
        Rate::Mult(3),
        Rate::Mult(4),
        Rate::Mult(5),
        Rate::Mult(8),
        Rate::Mult(16),
        Rate::Mult(32),
        Rate::Mult(64),
    ];
    for r in order {
        match r.prev() {
            Some(p) => assert_eq!(p.next(), Some(r)),
            None => assert_eq!(r, Rate::Div(64)),
        }
        match r.next() {
            Some(n) => assert_eq!(n.prev(), Some(r)),
            None => assert_eq!(r, Rate::Mult(64)),
        }
    }
}

#[test]
fn rate_period_ticks_are_exact() {
    assert_eq!(Rate::Div(64).period_ticks(), 122_880);
    assert_eq!(Rate::Div(3).period_ticks(), 5760);
    assert_eq!(Rate::Unity.period_ticks(), 1920);
    assert_eq!(Rate::Mult(2).period_ticks(), 960);
    assert_eq!(Rate::Mult(4).period_ticks(), 480);
    assert_eq!(Rate::Mult(64).period_ticks(), 30);
    for n in [2u32, 3, 4, 5, 8, 16, 32, 64] {
        assert_eq!(Rate::Mult(n).period_ticks() * n, 1920);
        assert_eq!(Rate::Div(n).period_ticks(), 1920 * n);
    }
}

#[test]
fn pwm_saturates() {
    assert_eq!(Pwm::P90.next(), None);
    assert_eq!(Pwm::Pew.prev(), None);
    assert_eq!(Pwm::Pew.next(), Some(Pwm::P10));
    assert_eq!(Pwm::P50.next(), Some(Pwm::P60));
    assert_eq!(Pwm::P50.prev(), Some(Pwm::P40));
}

#[test]
fn prob_saturates() {
    assert_eq!(Prob::P100.next(), None);
    assert_eq!(Prob::P10.prev(), None);
    assert_eq!(Prob::P90.next(), Some(Prob::P100));
    assert_eq!(Prob::P100.percent(), 100);
    assert_eq!(Prob::P10.percent(), 10);
}

#[test]
fn bpm_saturates_at_supported_range() {
    assert_eq!(Bpm(300).next(), None);
    assert_eq!(Bpm(1).prev(), None);
    assert_eq!(Bpm(120).next(), Some(Bpm(121)));
    assert_eq!(Bpm(120).prev(), Some(Bpm(119)));
}

#[test]
fn length_and_density_saturate() {
    assert_eq!(Length(16).next(), None);
    assert_eq!(Length(1).prev(), None);
    assert_eq!(Length(8).next(), Some(Length(9)));
    assert_eq!(Density(16).next(), None);
    assert_eq!(Density(1).prev(), None);
    assert_eq!(Density(4).prev(), Some(Density(3)));
}

#[test]
fn sync_and_output_type_saturate() {
    assert_eq!(Sync::Int.next(), Some(Sync::Ext));
    assert_eq!(Sync::Ext.next(), None);
    assert_eq!(Sync::Int.prev(), None);
    assert_eq!(OutputType::Gate.next(), Some(OutputType::Euclid));
    assert_eq!(OutputType::Euclid.next(), None);
    assert_eq!(OutputType::Euclid.prev(), Some(OutputType::Gate));
}

#[test]
fn labels_match_screen_text() {
    assert_eq!(RateString::of(&Rate::Div(64)).0, "/64");
    assert_eq!(RateString::of(&Rate::Unity).0, "x1");
    assert_eq!(RateString::of(&Rate::Mult(16)).0, "x16");
    assert_eq!(ProbString::of(Prob::P100).0, "100%");
    assert_eq!(ProbString::of(Prob::P10).0, "10%");
    assert_eq!(toad_time::OutputTypeString::of(&OutputType::Gate).0, "G");
    assert_eq!(toad_time::OutputTypeString::of(&OutputType::Euclid).0, "E");
}

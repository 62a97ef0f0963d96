use time_calc::{
    checked_ticks_from_measure, ticks_from_measure, Bars, Beats, DivType, Division, Fraction, Measure, Ticks, TimeSig,
};

fn value(f: Fraction) -> f64 {
    f.numer as f64 / f.denom as f64
}

fn four_four() -> TimeSig {
    TimeSig { top: 4, bottom: 4 }
}

#[test]
fn beats_per_bar_common_meters() {
    assert_eq!(value(TimeSig { top: 4, bottom: 4 }.beats_per_bar()), 4.0);
    assert_eq!(value(TimeSig { top: 3, bottom: 4 }.beats_per_bar()), 3.0);
    assert_eq!(value(TimeSig { top: 7, bottom: 8 }.beats_per_bar()), 3.5);
    let f = TimeSig { top: 7, bottom: 8 }.beats_per_bar();
    assert_eq!((f.numer, f.denom), (28, 8));
}

#[test]
fn measures_of_bars_and_beats() {
    assert_eq!(Bars(1).measure(), Measure(1, Division::Bar, DivType::Whole));
    assert_eq!(Beats(1).measure(), Measure(1, Division::Beat, DivType::Whole));
    assert_eq!(Bars(-3).measure(), Measure(-3, Division::Bar, DivType::Whole));
    assert_eq!(Beats(12).measure(), Measure(12, Division::Beat, DivType::Whole));
}

#[test]
fn measure_accessors() {
    let m = Measure(3, Division::Quaver, DivType::TwoThirds);
    assert_eq!(m.num(), 3);
    assert_eq!(m.div(), Division::Quaver);
    assert_eq!(m.div_type(), DivType::TwoThirds);
}

#[test]
fn a_beat_is_ppqn_ticks_in_any_meter() {
    let meters = [
        TimeSig { top: 4, bottom: 4 },
        TimeSig { top: 3, bottom: 4 },
        TimeSig { top: 7, bottom: 8 },
        TimeSig { top: 5, bottom: 16 },
        TimeSig { top: 0, bottom: 0 },
    ];
    for ts in meters {
        assert_eq!(ticks_from_measure(1, Division::Beat, DivType::Whole, ts, 19200), 19200);
    }
}

#[test]
fn beats_ticks_round_trip() {
    for n in [0i64, 1, 2, 7, -1, -9, 1_000_000] {
        for ppqn in [1u32, 24, 96, 960, 19200] {
            let ticks = Beats(n).to_ticks(ppqn);
            assert_eq!(ticks.ticks(), n * ppqn as i64);
            let back = ticks.beats(ppqn);
            assert_eq!(back.numer, n as i128 * back.denom);
        }
    }
}

#[test]
fn beats_to_ticks_scales_by_ppqn() {
    assert_eq!(Beats(1).ticks(19200), 19200);
    assert_eq!(Beats(3).ticks(960), 2880);
    assert_eq!(Beats(-2).ticks(96), -192);
    assert_eq!(Ticks(38_400).beats(19200).numer, 38_400);
    assert_eq!(value(Ticks(38_400).beats(19200)), 2.0);
}

#[test]
fn bar_ticks_follow_meter() {
    assert_eq!(Bars(1).ticks(four_four(), 19200), 76800);
    assert_eq!(Bars(1).ticks(TimeSig { top: 7, bottom: 8 }, 19200), 67200);
    assert_eq!(Bars(2).to_ticks(TimeSig { top: 3, bottom: 4 }, 960), Ticks(5760));
    assert_eq!(TimeSig { top: 3, bottom: 4 }.ticks_per_bar(960), Ticks(2880));
    assert_eq!(TimeSig { top: 6, bottom: 8 }.ticks_per_bar(100), Ticks(300));
}

#[test]
fn triplet_ticks() {
    let m = Measure(1, Division::Quaver, DivType::TwoThirds);
    assert_eq!(m.ticks(four_four(), 19200), 6400);
    assert_eq!(m.to_ticks(four_four(), 19200), Ticks(6400));
    assert_eq!(ticks_from_measure(3, Division::Beat, DivType::TwoThirds, four_four(), 960), 1920);
}

#[test]
fn ticks_round_half_away_from_zero() {
    // Half a beat at one tick per beat: 0.5 rounds up to 1, -0.5 down to -1.
    assert_eq!(ticks_from_measure(1, Division::Quaver, DivType::Whole, four_four(), 1), 1);
    assert_eq!(ticks_from_measure(-1, Division::Quaver, DivType::Whole, four_four(), 1), -1);
    // Two thirds of a beat at one tick per beat rounds to 1; one third of a beat to 0.
    assert_eq!(ticks_from_measure(1, Division::Beat, DivType::TwoThirds, four_four(), 1), 1);
    assert_eq!(ticks_from_measure(1, Division::Quaver, DivType::TwoThirds, four_four(), 1), 0);
    assert_eq!(ticks_from_measure(-1, Division::Quaver, DivType::TwoThirds, four_four(), 1), 0);
    // 1.5 and -1.5 ticks.
    assert_eq!(ticks_from_measure(3, Division::Quaver, DivType::Whole, four_four(), 1), 2);
    assert_eq!(ticks_from_measure(-3, Division::Quaver, DivType::Whole, four_four(), 1), -2);
    // A bar of 4/3 time at one tick per beat: 1.33 rounds to 1.
    assert_eq!(ticks_from_measure(1, Division::Bar, DivType::Whole, TimeSig { top: 1, bottom: 3 }, 1), 1);
}

#[test]
fn measure_beats_and_bars() {
    let ts = TimeSig { top: 3, bottom: 4 };
    assert_eq!(value(Measure(2, Division::Bar, DivType::Whole).beats(ts)), 6.0);
    assert_eq!(value(Measure(3, Division::Quaver, DivType::Whole).beats(ts)), 1.5);
    assert_eq!(value(Measure(3, Division::Minim, DivType::TwoThirds).beats(ts)), 4.0);
    assert_eq!(value(Measure(6, Division::Beat, DivType::Whole).bars(ts)), 2.0);
    assert_eq!(value(Measure(5, Division::Bar, DivType::Whole).bars(ts)), 5.0);
    assert_eq!(value(Measure(-3, Division::Minim, DivType::TwoThirds).bars(four_four())), -1.0);
}

#[test]
fn axis_conversions_to_fractions() {
    let ts = TimeSig { top: 7, bottom: 8 };
    assert_eq!(value(Bars(2).beats(ts)), 7.0);
    assert_eq!(value(Beats(7).bars(ts)), 2.0);
    assert_eq!(value(Beats(2).bars(four_four())), 0.5);
    assert_eq!(value(Ticks(19200 * 7).bars(ts, 19200)), 2.0);
    assert_eq!(value(Ticks(76800 / 2).bars(four_four(), 19200)), 0.5);
}

#[test]
fn checked_ticks_report_overflow() {
    let ts = four_four();
    assert_eq!(checked_ticks_from_measure(1, Division::Bar, DivType::Whole, ts, 19200), Some(76800));
    assert_eq!(checked_ticks_from_measure(-3, Division::Quaver, DivType::Whole, ts, 1), Some(-2));
    assert_eq!(checked_ticks_from_measure(i64::MAX, Division::Bar, DivType::Whole, ts, 19200), None);
    assert_eq!(checked_ticks_from_measure(i64::MIN, Division::Beat, DivType::Whole, ts, 2), None);
    assert_eq!(checked_ticks_from_measure(i64::MAX, Division::Beat, DivType::Whole, ts, 1), Some(i64::MAX));
    assert_eq!(checked_ticks_from_measure(i64::MIN, Division::Minim, DivType::TwoThirds, ts, 3), None);
    assert_eq!(
        checked_ticks_from_measure(i64::MAX / 4, Division::OneThousandTwentyFourth, DivType::Whole, ts, 1),
        Some((i64::MAX / 4 + 128) / 256)
    );
}

#[test]
fn largest_time_signature() {
    let ts = TimeSig { top: u16::MAX, bottom: 1 };
    let f = ts.beats_per_bar();
    assert_eq!((f.numer, f.denom), (4 * 65535, 1));
    assert_eq!(ts.ticks_per_bar(u32::MAX), Ticks(4 * 65535 * u32::MAX as i64));
}

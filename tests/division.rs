use time_calc::{DivType, Division, Fraction, TimeSig};

const LADDER: [Division; 11] = [
    Division::Bar,
    Division::Minim,
    Division::Beat,
    Division::Quaver,
    Division::SemiQuaver,
    Division::ThirtySecond,
    Division::SixtyFourth,
    Division::OneHundredTwentyEighth,
    Division::TwoHundredFiftySixth,
    Division::FiveHundredTwelfth,
    Division::OneThousandTwentyFourth,
];

fn value(f: Fraction) -> f64 {
    f.numer as f64 / f.denom as f64
}

#[test]
fn division_beats_halve_per_step() {
    let ts = TimeSig { top: 3, bottom: 4 };
    assert_eq!(value(Division::Bar.beats(ts)), 3.0);
    assert_eq!(value(Division::Minim.beats(ts)), 2.0);
    assert_eq!(value(Division::Beat.beats(ts)), 1.0);
    assert_eq!(value(Division::Quaver.beats(ts)), 0.5);
    assert_eq!(value(Division::SemiQuaver.beats(ts)), 0.25);
    assert_eq!(value(Division::OneThousandTwentyFourth.beats(ts)), 1.0 / 256.0);
    // Only the bar follows the meter.
    let other = TimeSig { top: 7, bottom: 8 };
    assert_eq!(value(Division::Bar.beats(other)), 3.5);
    assert_eq!(value(Division::Minim.beats(other)), 2.0);
}

#[test]
fn division_bars() {
    let ts = TimeSig { top: 4, bottom: 4 };
    assert_eq!(value(Division::Bar.bars(ts)), 1.0);
    assert_eq!(value(Division::Minim.bars(ts)), 0.5);
    assert_eq!(value(Division::Beat.bars(ts)), 0.25);
    assert_eq!(value(Division::Beat.bars(TimeSig { top: 3, bottom: 4 })), 1.0 / 3.0);
    assert_eq!(value(Division::Bar.bars(TimeSig { top: 7, bottom: 8 })), 1.0);
}

#[test]
fn zoom_in_steps_along_the_ladder() {
    assert_eq!(Division::Bar.zoom_in(0), Some(Division::Bar));
    assert_eq!(Division::Bar.zoom_in(2), Some(Division::Beat));
    assert_eq!(Division::Beat.zoom_in(2), Some(Division::SemiQuaver));
    assert_eq!(Division::Bar.zoom_in(10), Some(Division::OneThousandTwentyFourth));
    assert_eq!(Division::Bar.zoom_in(11), None);
    assert_eq!(Division::OneThousandTwentyFourth.zoom_in(1), None);
    assert_eq!(Division::Quaver.zoom_in(255), None);
}

#[test]
fn zoom_out_steps_along_the_ladder() {
    assert_eq!(Division::Beat.zoom_out(2), Some(Division::Bar));
    assert_eq!(Division::Beat.zoom_out(3), None);
    assert_eq!(Division::Bar.zoom_out(1), None);
    assert_eq!(Division::OneThousandTwentyFourth.zoom_out(10), Some(Division::Bar));
    assert_eq!(Division::SemiQuaver.zoom_out(1), Some(Division::Quaver));
    assert_eq!(Division::Minim.zoom_out(255), None);
}

#[test]
fn zoom_never_leaves_the_ladder() {
    for (i, d) in LADDER.iter().enumerate() {
        for steps in 0u8..=255 {
            match d.zoom_in(steps) {
                Some(e) => {
                    assert_eq!(e.to_u8() as usize, i + steps as usize);
                    assert_eq!(e.zoom_out(steps), Some(*d));
                }
                None => assert!(i + steps as usize > 10),
            }
            match d.zoom_out(steps) {
                Some(e) => assert_eq!(e.to_u8() as usize + steps as usize, i),
                None => assert!((steps as usize) > i),
            }
        }
    }
}

#[test]
fn division_numbering() {
    for (i, d) in LADDER.iter().enumerate() {
        assert_eq!(d.to_u8() as usize, i);
        assert_eq!(d.to_i8() as usize, i);
        assert_eq!(d.to_u64(), Some(i as u64));
        assert_eq!(d.to_i64(), Some(i as i64));
        assert_eq!(Division::from_isize(i as isize), *d);
        assert_eq!(Division::from_u64(i as u64), Some(*d));
        assert_eq!(Division::from_i64(i as i64), Some(*d));
    }
    assert_eq!(Division::from_u64(11), None);
    assert_eq!(Division::from_u64(u64::MAX), None);
    assert_eq!(Division::from_i64(-1), None);
    assert_eq!(Division::from_i64(11), None);
}

#[test]
fn division_step_arithmetic() {
    assert_eq!(Division::Beat + 3, 5);
    assert_eq!(Division::Beat - 3, -1);
    assert_eq!(Division::Bar + 0, 0);
    assert_eq!(DivType::TwoThirds + 4, 5);
    assert_eq!(DivType::Whole - 1, -1);
}

#[test]
fn div_type_numbering() {
    assert_eq!(DivType::from_isize(0), DivType::Whole);
    assert_eq!(DivType::from_isize(1), DivType::TwoThirds);
    assert_eq!(DivType::from_u64(0), Some(DivType::Whole));
    assert_eq!(DivType::from_u64(1), Some(DivType::TwoThirds));
    assert_eq!(DivType::from_u64(2), None);
    assert_eq!(DivType::from_i64(-1), None);
    assert_eq!(DivType::from_i64(1), Some(DivType::TwoThirds));
    assert_eq!(DivType::Whole.to_u64(), Some(0));
    assert_eq!(DivType::TwoThirds.to_i64(), Some(1));
}

#[test]
fn div_type_from_a_coin() {
    assert_eq!(DivType::from_flip(true), DivType::Whole);
    assert_eq!(DivType::from_flip(false), DivType::TwoThirds);
    let mut seen_whole = false;
    let mut seen_triplet = false;
    for _ in 0..200 {
        match DivType::random() {
            Some(DivType::Whole) => seen_whole = true,
            Some(DivType::TwoThirds) => seen_triplet = true,
            None => panic!("the operating system's random source failed"),
        }
    }
    assert!(seen_whole && seen_triplet);
}

#[test]
fn bar_is_one_bar_under_any_time_signature() {
    for ts in [
        TimeSig { top: 0, bottom: 0 },
        TimeSig { top: 5, bottom: 0 },
        TimeSig { top: 0, bottom: 4 },
        TimeSig { top: 7, bottom: 8 },
    ] {
        let f = Division::Bar.bars(ts);
        assert_eq!((f.numer, f.denom), (1, 1));
    }
}

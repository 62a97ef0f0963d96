use time_calc::{Bars, Beats, Samples, Ticks};

#[test]
fn bars_operators() {
    assert_eq!(Bars(3) + Bars(4), Bars(7));
    assert_eq!(Bars(3) + Bars(4), Bars(4) + Bars(3));
    assert_eq!(Bars(3) - Bars(4), Bars(-1));
    assert_eq!(Bars(3) * Bars(4), Bars(12));
    assert_eq!(Bars(3) * Bars(4), Bars(4) * Bars(3));
    assert_eq!(Bars(7) / Bars(2), Bars(3));
    assert_eq!(Bars(-7) / Bars(2), Bars(-3));
    assert_eq!(Bars(7) % Bars(2), Bars(1));
    assert_eq!(Bars(-7) % Bars(2), Bars(-1));
    assert_eq!(-Bars(5), Bars(-5));
    let (a, b) = (Bars(-17), Bars(5));
    assert_eq!((a / b) * b + a % b, a);
}

#[test]
fn beats_operators() {
    assert_eq!(Beats(1) + Beats(2) + Beats(3), Beats(1) + (Beats(2) + Beats(3)));
    assert_eq!(Beats(10) - Beats(4), Beats(6));
    assert_eq!(Beats(6) * Beats(-2), Beats(-12));
    assert_eq!(Beats(9) / Beats(-4), Beats(-2));
    assert_eq!(Beats(9) % Beats(-4), Beats(1));
    assert_eq!(-(-Beats(8)), Beats(8));
    assert_eq!(Beats(8) + -Beats(8), Beats(0));
}

#[test]
fn ticks_operators() {
    assert_eq!(Ticks(960) + Ticks(480), Ticks(1440));
    assert_eq!(Ticks(960) - Ticks(480) + Ticks(480), Ticks(960));
    assert_eq!(Ticks(960) * Ticks(1), Ticks(960));
    assert_eq!(Ticks(960) / Ticks(7), Ticks(137));
    assert_eq!(Ticks(960) % Ticks(7), Ticks(1));
    assert_eq!(-Ticks(i64::MAX), Ticks(-i64::MAX));
}

#[test]
fn samples_operators() {
    assert_eq!(Samples(44100) + Samples(0), Samples(44100));
    assert_eq!(Samples(44100) - Samples(100), Samples(44000));
    assert_eq!(Samples(2) * Samples(22050), Samples(44100));
    assert_eq!(Samples(44100) / Samples(1000), Samples(44));
    assert_eq!(Samples(44100) % Samples(1000), Samples(100));
    assert_eq!(-Samples(1), Samples(-1));
}

#[test]
fn compound_assignment() {
    let mut b = Bars(10);
    b += Bars(5);
    assert_eq!(b, Bars(15));
    b -= Bars(3);
    assert_eq!(b, Bars(12));
    b *= Bars(2);
    assert_eq!(b, Bars(24));
    b /= Bars(5);
    assert_eq!(b, Bars(4));
    b %= Bars(3);
    assert_eq!(b, Bars(1));

    let mut t = Ticks(-100);
    t += Ticks(40);
    t -= Ticks(1);
    t *= Ticks(-2);
    t /= Ticks(4);
    t %= Ticks(7);
    assert_eq!(t, Ticks(2));

    let mut s = Samples(7);
    s *= Samples(6);
    s %= Samples(5);
    assert_eq!(s, Samples(2));

    let mut q = Beats(3);
    q -= Beats(5);
    q /= Beats(2);
    assert_eq!(q, Beats(-1));
}

#[test]
fn ordering_and_raw_values() {
    assert!(Bars(1) < Bars(2));
    assert!(Ticks(-5) < Ticks(0));
    assert!(Samples(44100) > Samples(22050));
    assert_eq!(Bars(4).bars(), 4);
    assert_eq!(Beats(4).beats(), 4);
    assert_eq!(Ticks(4).ticks(), 4);
    assert_eq!(Samples(4).samples(), 4);
}

#[test]
fn primitive_conversions() {
    assert_eq!(Bars(4).to_u64(), Some(4));
    assert_eq!(Bars(-4).to_u64(), None);
    assert_eq!(Beats(-4).to_i64(), Some(-4));
    assert_eq!(Ticks::from_u64(12), Some(Ticks(12)));
    assert_eq!(Ticks::from_u64(u64::MAX), None);
    assert_eq!(Samples::from_i64(-12), Some(Samples(-12)));
    assert_eq!(Samples::from(44100), Samples(44100));
    assert_eq!(Bars::from(-2), Bars(-2));
    assert_eq!(Beats::from(3), Beats(3));
    assert_eq!(Ticks::from(19200), Ticks(19200));
}

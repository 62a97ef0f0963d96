use vstd::prelude::*;

use crate::calc::{spec_ticks_from_measure, ticks_from_measure};
use crate::division::{DivType, Division, NumDiv};
use crate::fraction::{is_whole, lemma_mul_within, Fraction};
use crate::ticks::Ticks;
use crate::time_sig::TimeSig;

verus! {

/// A duration given as a count of some division, whole or as triplets.
///
/// `Measure(1, Bar, Whole)` is one bar, `Measure(3, Beat, Whole)` three beats,
/// `Measure(1, Minim, TwoThirds)` two thirds of a minim.
#[derive(Debug, Clone, Copy, PartialEq, Eq, Structural)]
pub struct Measure(pub NumDiv, pub Division, pub DivType);

impl Measure {
    /// The duration in quarter notes, as `(numerator, denominator)`:
    /// one unit of the division, times the count, times two thirds for triplets.
    pub open spec fn spec_beats(self, ts: TimeSig) -> (int, int) {
        let unit = self.1.spec_beats(ts);
        match self.2 {
            DivType::Whole => (unit.0 * self.0, unit.1),
            DivType::TwoThirds => (unit.0 * self.0 * 2, unit.1 * 3),
        }
    }

    /// The duration in bars, as `(numerator, denominator)`: the duration in quarter
    /// notes over the length of one bar in quarter notes.
    pub open spec fn spec_bars(self, ts: TimeSig) -> (int, int) {
        let beats = self.spec_beats(ts);
        let bar = ts.spec_beats_per_bar();
        (beats.0 * bar.1, beats.1 * bar.0)
    }

    /// The duration in ticks at `ppqn` ticks to the quarter note.
    pub open spec fn spec_ticks(self, ts: TimeSig, ppqn: int) -> int {
        spec_ticks_from_measure(self.0, self.1, self.2, ts, ppqn)
    }

    /// The number of divisions.
    pub fn num(&self) -> (r: NumDiv)
        ensures
            r == self.0,
    {
        self.0
    }

    /// The division.
    pub fn div(&self) -> (r: Division)
        ensures
            r == self.1,
    {
        self.1
    }

    /// The division type.
    pub fn div_type(&self) -> (r: DivType)
        ensures
            r == self.2,
    {
        self.2
    }

    /// Convert to the equivalent duration in beats (quarter notes).
    pub fn beats(&self, ts: TimeSig) -> (r: Fraction)
        requires
            self.1 is Bar ==> ts.bottom > 0,
        ensures
            r@ == self.spec_beats(ts),
            r.denom > 0,
            -0x4_0000_0000_0000_0000_0000 <= r.numer <= 0x4_0000_0000_0000_0000_0000,
            r.denom <= 3 * 0xffff,
    {
        let Measure(num, div, div_type) = *self;
        let unit = div.beats(ts);
        let n = num as i128;
        proof {
            lemma_mul_within(unit.numer as int, n as int, 0x4_0000, 0x8000_0000_0000_0000);
        }
        match div_type {
            DivType::Whole => Fraction { numer: unit.numer * n, denom: unit.denom },
            DivType::TwoThirds => Fraction { numer: unit.numer * n * 2, denom: unit.denom * 3 },
        }
    }

    /// Convert to the equivalent duration in bars.
    pub fn bars(&self, ts: TimeSig) -> (r: Fraction)
        requires
            ts.top > 0,
            ts.bottom > 0,
        ensures
            r@ == self.spec_bars(ts),
            r.denom > 0,
    {
        let beats = self.beats(ts);
        let bar = ts.beats_per_bar();
        proof {
            lemma_mul_within(beats.numer as int, bar.denom as int, 0x4_0000_0000_0000_0000_0000, 0x1_0000);
            lemma_mul_within(beats.denom as int, bar.numer as int, 0x3_0000, 0x4_0000);
            assert(beats.denom * bar.numer > 0) by (nonlinear_arith)
                requires
                    beats.denom > 0,
                    bar.numer > 0,
            ;
        }
        Fraction { numer: beats.numer * bar.denom, denom: beats.denom * bar.numer }
    }

    /// Convert to the unit value of ticks.
    pub fn ticks(&self, ts: TimeSig, ppqn: u32) -> (r: i64)
        requires
            self.1 is Bar ==> ts.bottom > 0,
            i64::MIN <= self.spec_ticks(ts, ppqn as int) <= i64::MAX,
        ensures
            r == self.spec_ticks(ts, ppqn as int),
    {
        let Measure(num, div, div_type) = *self;
        ticks_from_measure(num, div, div_type, ts, ppqn)
    }

    /// Convert to `Ticks`.
    pub fn to_ticks(&self, ts: TimeSig, ppqn: u32) -> (r: Ticks)
        requires
            self.1 is Bar ==> ts.bottom > 0,
            i64::MIN <= self.spec_ticks(ts, ppqn as int) <= i64::MAX,
        ensures
            r.0 == self.spec_ticks(ts, ppqn as int),
    {
        Ticks(self.ticks(ts, ppqn))
    }
}

/// `n` bars, measured in bars under any time signature, are `n` whole bars:
/// the bar length in quarter notes divides out.
pub proof fn lemma_bar_measure_in_bars(n: i64, ts: TimeSig)
    requires
        ts.top > 0,
        ts.bottom > 0,
    ensures
        is_whole(Measure(n, Division::Bar, DivType::Whole).spec_bars(ts), n as int),
{
    let beats = Measure(n, Division::Bar, DivType::Whole).spec_beats(ts);
    assert(beats == (4 * ts.top * n, ts.bottom as int));
    let top = ts.top as int;
    let bottom = ts.bottom as int;
    assert(4 * top * n * bottom == n * (bottom * (4 * top))) by (nonlinear_arith);
}

} // verus!

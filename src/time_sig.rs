use vstd::prelude::*;

use crate::bars::Bars;
use crate::calc::{lemma_bar_ticks_bounds, spec_ticks_from_measure, Ppqn};
use crate::division::{DivType, Division};
use crate::fraction::Fraction;
use crate::ticks::Ticks;

verus! {

/// Width of the numerator of a time signature.
pub type Top = u16;

/// Width of the denominator of a time signature.
pub type Bottom = u16;

/// A musical time signature: `top` notes of length `1/bottom` to the bar.
#[derive(Debug, Clone, Copy, PartialEq, Eq, Hash, Structural)]
pub struct TimeSig {
    pub top: Top,
    pub bottom: Bottom,
}

impl TimeSig {
    /// The number of quarter notes in one bar, `4 * top / bottom`.
    pub open spec fn spec_beats_per_bar(self) -> (int, int) {
        (4 * self.top, self.bottom as int)
    }

    /// How many beats (quarter notes) there are in a bar under this time signature.
    pub fn beats_per_bar(&self) -> (r: Fraction)
        requires
            self.bottom > 0,
        ensures
            r@ == self.spec_beats_per_bar(),
    {
        Fraction { numer: 4 * self.top as i128, denom: self.bottom as i128 }
    }

    /// The number of ticks in a single bar under this time signature.
    pub fn ticks_per_bar(&self, ppqn: Ppqn) -> (r: Ticks)
        requires
            self.bottom > 0,
        ensures
            r.0 == spec_ticks_from_measure(1, Division::Bar, DivType::Whole, *self, ppqn as int),
    {
        proof {
            lemma_bar_ticks_bounds(*self, ppqn as int);
        }
        Bars(1).to_ticks(*self, ppqn)
    }
}

} // verus!

use vstd::prelude::*;

use vstd::arithmetic::mul::lemma_mul_is_commutative;
use vstd::std_specs::ops::{AddSpec, DivSpec, MulSpec, NegSpec, RemSpec, SubSpec};

use crate::arith::{
    fits_i64, lemma_trunc_div_fits, lemma_trunc_div_rem, lemma_trunc_rem_bounds, trunc_div, trunc_rem,
};
use crate::calc::{lemma_beat_ticks_meter_free, Ppqn};
use crate::division::{DivType, Division};
use crate::fraction::{is_whole, Fraction};
use crate::measure::Measure;
use crate::ticks::Ticks;
use crate::time_sig::TimeSig;

verus! {

/// A duration as a number of beats (quarter notes): `Beats(n)` stands for
/// `Measure(n, Beat, Whole)`.
#[derive(Debug, Clone, Copy, PartialEq, Eq, PartialOrd, Ord, Hash, Structural)]
pub struct Beats(pub i64);

impl Beats {
    /// The measure this duration stands for.
    pub open spec fn spec_measure(self) -> Measure {
        Measure(self.0, Division::Beat, DivType::Whole)
    }

    /// The duration in ticks: exactly `ppqn` ticks to the beat.
    pub open spec fn spec_ticks(self, ppqn: int) -> int {
        self.0 * ppqn
    }

    /// Convert to the equivalent duration in bars.
    pub fn bars(&self, ts: TimeSig) -> (r: Fraction)
        requires
            ts.top > 0,
            ts.bottom > 0,
        ensures
            r@ == self.spec_measure().spec_bars(ts),
            r.denom > 0,
    {
        self.measure().bars(ts)
    }

    /// Convert to a `Measure`.
    pub fn measure(&self) -> (r: Measure)
        ensures
            r == self.spec_measure(),
    {
        Measure(self.0, Division::Beat, DivType::Whole)
    }

    /// Convert to the unit value of ticks: exactly `ppqn` ticks to the beat.
    pub fn ticks(&self, ppqn: Ppqn) -> (r: i64)
        requires
            fits_i64(self.spec_ticks(ppqn as int)),
        ensures
            r == self.spec_ticks(ppqn as int),
    {
        self.0 * ppqn as i64
    }

    /// Convert to `Ticks`.
    pub fn to_ticks(&self, ppqn: Ppqn) -> (r: Ticks)
        requires
            fits_i64(self.spec_ticks(ppqn as int)),
        ensures
            r.0 == self.spec_ticks(ppqn as int),
    {
        Ticks(self.ticks(ppqn))
    }
}

impl Beats {
    /// The number of beats.
    pub fn beats(&self) -> (r: i64)
        ensures
            r == self.0,
    {
        self.0
    }

    /// The count as an unsigned integer, where it is not negative.
    pub fn to_u64(&self) -> (r: Option<u64>)
        ensures
            r == (if self.0 >= 0 { Some(self.0 as u64) } else { None::<u64> }),
    {
        if self.0 >= 0 {
            Some(self.0 as u64)
        } else {
            None
        }
    }

    /// The count as a signed integer.
    pub fn to_i64(&self) -> (r: Option<i64>)
        ensures
            r == Some(self.0),
    {
        Some(self.0)
    }

    /// The duration of `n` beats, where `n` fits the count.
    pub fn from_u64(n: u64) -> (r: Option<Beats>)
        ensures
            r == (if n <= i64::MAX { Some(Beats(n as i64)) } else { None::<Beats> }),
    {
        if n <= i64::MAX as u64 {
            Some(Beats(n as i64))
        } else {
            None
        }
    }

    /// The duration of `n` beats.
    pub fn from_i64(n: i64) -> (r: Option<Beats>)
        ensures
            r == Some(Beats(n)),
    {
        Some(Beats(n))
    }
}

impl vstd::std_specs::convert::FromSpecImpl<i64> for Beats {
    open spec fn obeys_from_spec() -> bool {
        true
    }

    open spec fn from_spec(v: i64) -> Beats {
        Beats(v)
    }
}

impl From<i64> for Beats {
    fn from(n: i64) -> Beats {
        Beats(n)
    }
}

impl vstd::std_specs::ops::AddSpecImpl for Beats {
    open spec fn obeys_add_spec() -> bool {
        true
    }

    open spec fn add_req(self, rhs: Beats) -> bool {
        fits_i64(self.0 + rhs.0)
    }

    open spec fn add_spec(self, rhs: Beats) -> Beats {
        Beats((self.0 + rhs.0) as i64)
    }
}

impl std::ops::Add for Beats {
    type Output = Beats;

    fn add(self, rhs: Beats) -> Beats {
        Beats(self.0 + rhs.0)
    }
}

impl vstd::std_specs::ops::SubSpecImpl for Beats {
    open spec fn obeys_sub_spec() -> bool {
        true
    }

    open spec fn sub_req(self, rhs: Beats) -> bool {
        fits_i64(self.0 - rhs.0)
    }

    open spec fn sub_spec(self, rhs: Beats) -> Beats {
        Beats((self.0 - rhs.0) as i64)
    }
}

impl std::ops::Sub for Beats {
    type Output = Beats;

    fn sub(self, rhs: Beats) -> Beats {
        Beats(self.0 - rhs.0)
    }
}

impl vstd::std_specs::ops::MulSpecImpl for Beats {
    open spec fn obeys_mul_spec() -> bool {
        true
    }

    open spec fn mul_req(self, rhs: Beats) -> bool {
        fits_i64(self.0 * rhs.0)
    }

    open spec fn mul_spec(self, rhs: Beats) -> Beats {
        Beats((self.0 * rhs.0) as i64)
    }
}

impl std::ops::Mul for Beats {
    type Output = Beats;

    fn mul(self, rhs: Beats) -> Beats {
        Beats(self.0 * rhs.0)
    }
}

impl vstd::std_specs::ops::DivSpecImpl for Beats {
    open spec fn obeys_div_spec() -> bool {
        true
    }

    open spec fn div_req(self, rhs: Beats) -> bool {
        rhs.0 != 0 && !(self.0 == i64::MIN && rhs.0 == -1)
    }

    open spec fn div_spec(self, rhs: Beats) -> Beats {
        Beats(trunc_div(self.0 as int, rhs.0 as int) as i64)
    }
}

impl std::ops::Div for Beats {
    type Output = Beats;

    fn div(self, rhs: Beats) -> Beats {
        Beats(self.0 / rhs.0)
    }
}

impl vstd::std_specs::ops::RemSpecImpl for Beats {
    open spec fn obeys_rem_spec() -> bool {
        true
    }

    open spec fn rem_req(self, rhs: Beats) -> bool {
        rhs.0 != 0 && !(self.0 == i64::MIN && rhs.0 == -1)
    }

    open spec fn rem_spec(self, rhs: Beats) -> Beats {
        Beats(trunc_rem(self.0 as int, rhs.0 as int) as i64)
    }
}

impl std::ops::Rem for Beats {
    type Output = Beats;

    fn rem(self, rhs: Beats) -> Beats {
        Beats(self.0 % rhs.0)
    }
}

impl vstd::std_specs::ops::NegSpecImpl for Beats {
    open spec fn obeys_neg_spec() -> bool {
        true
    }

    open spec fn neg_req(self) -> bool {
        self.0 != i64::MIN
    }

    open spec fn neg_spec(self) -> Beats {
        Beats((-self.0) as i64)
    }
}

impl std::ops::Neg for Beats {
    type Output = Beats;

    fn neg(self) -> Beats {
        Beats(-self.0)
    }
}

impl std::ops::AddAssign for Beats {
    fn add_assign(&mut self, rhs: Beats)
        requires
            fits_i64(old(self).0 + rhs.0),
        ensures
            final(self).0 == (old(self).0 + rhs.0),
    {
        *self = *self + rhs;
    }
}

impl std::ops::SubAssign for Beats {
    fn sub_assign(&mut self, rhs: Beats)
        requires
            fits_i64(old(self).0 - rhs.0),
        ensures
            final(self).0 == (old(self).0 - rhs.0),
    {
        *self = *self - rhs;
    }
}

impl std::ops::MulAssign for Beats {
    fn mul_assign(&mut self, rhs: Beats)
        requires
            fits_i64(old(self).0 * rhs.0),
        ensures
            final(self).0 == (old(self).0 * rhs.0),
    {
        *self = *self * rhs;
    }
}

impl std::ops::DivAssign for Beats {
    fn div_assign(&mut self, rhs: Beats)
        requires
            rhs.0 != 0 && !(old(self).0 == i64::MIN && rhs.0 == -1),
        ensures
            final(self).0 == trunc_div(old(self).0 as int, rhs.0 as int) as i64,
    {
        *self = *self / rhs;
    }
}

impl std::ops::RemAssign for Beats {
    fn rem_assign(&mut self, rhs: Beats)
        requires
            rhs.0 != 0 && !(old(self).0 == i64::MIN && rhs.0 == -1),
        ensures
            final(self).0 == trunc_rem(old(self).0 as int, rhs.0 as int),
    {
        *self = *self % rhs;
    }
}


/// The operators on `Beats` obey the laws of integer arithmetic on the count of
/// beats, wherever the results fit an `i64`: `+` and `*` commute, `+`
/// associates, `-` undoes `+`, zero and one are identities, negation is its own
/// inverse, and `(a / b) * b + a % b == a`.
pub proof fn lemma_beats_arithmetic(a: Beats, b: Beats, c: Beats)
    ensures
        a.add_req(b) ==> b.add_req(a) && a.add_spec(b) == b.add_spec(a),
        a.mul_req(b) ==> b.mul_req(a) && a.mul_spec(b) == b.mul_spec(a),
        a.add_req(b) && b.add_req(c) && fits_i64(a.0 + b.0 + c.0) ==> {
            &&& a.add_spec(b).add_req(c)
            &&& a.add_req(b.add_spec(c))
            &&& a.add_spec(b).add_spec(c) == a.add_spec(b.add_spec(c))
        },
        a.add_req(b) ==> a.add_spec(b).sub_req(b) && a.add_spec(b).sub_spec(b) == a,
        a.add_req(Beats(0)) && a.add_spec(Beats(0)) == a,
        a.mul_req(Beats(1)) && a.mul_spec(Beats(1)) == a,
        a.neg_req() ==> {
            &&& a.neg_spec().neg_req()
            &&& a.neg_spec().neg_spec() == a
            &&& a.add_req(a.neg_spec())
            &&& a.add_spec(a.neg_spec()) == Beats(0)
        },
        a.div_req(b) ==> {
            &&& a.rem_req(b)
            &&& a.div_spec(b).mul_req(b)
            &&& a.div_spec(b).mul_spec(b).add_req(a.rem_spec(b))
            &&& a.div_spec(b).mul_spec(b).add_spec(a.rem_spec(b)) == a
        },
{
    lemma_mul_is_commutative(a.0 as int, b.0 as int);
    if a.div_req(b) {
        lemma_trunc_div_fits(a.0 as int, b.0 as int);
        lemma_trunc_div_rem(a.0 as int, b.0 as int);
        lemma_trunc_rem_bounds(a.0 as int, b.0 as int);
    }
}

/// Whole beats turned into ticks and back are the same number of beats: a beat
/// is exactly `ppqn` ticks, so nothing is lost.
pub proof fn lemma_beats_ticks_round_trip(n: i64, ppqn: u32)
    requires
        ppqn > 0,
        fits_i64(n * ppqn),
    ensures
        is_whole(Ticks(Beats(n).spec_ticks(ppqn as int) as i64).spec_beats(ppqn as int), n as int),
        Beats(n).spec_ticks(ppqn as int) == Beats(n).spec_measure().spec_ticks(TimeSig { top: 4, bottom: 4 }, ppqn as int),
{
    lemma_mul_is_commutative(n as int, ppqn as int);
    lemma_beat_ticks_meter_free(n, TimeSig { top: 4, bottom: 4 }, ppqn as int);
}

} // verus!

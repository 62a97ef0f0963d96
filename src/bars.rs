use vstd::prelude::*;

use vstd::arithmetic::mul::lemma_mul_is_commutative;
use vstd::std_specs::ops::{AddSpec, DivSpec, MulSpec, NegSpec, RemSpec, SubSpec};

use crate::arith::{
    fits_i64, lemma_trunc_div_fits, lemma_trunc_div_rem, lemma_trunc_rem_bounds, trunc_div, trunc_rem,
};
use crate::calc::{spec_ticks_from_measure, ticks_from_measure, Ppqn};
use crate::division::{DivType, Division};
use crate::fraction::Fraction;
use crate::measure::Measure;
use crate::ticks::Ticks;
use crate::time_sig::TimeSig;

verus! {

/// A duration as a number of bars: `Bars(n)` stands for `Measure(n, Bar, Whole)`.
#[derive(Debug, Clone, Copy, PartialEq, Eq, PartialOrd, Ord, Hash, Structural)]
pub struct Bars(pub i64);

impl Bars {
    /// The measure this duration stands for.
    pub open spec fn spec_measure(self) -> Measure {
        Measure(self.0, Division::Bar, DivType::Whole)
    }

    /// Convert to the equivalent duration in beats (quarter notes).
    pub fn beats(&self, ts: TimeSig) -> (r: Fraction)
        requires
            ts.bottom > 0,
        ensures
            r@ == self.spec_measure().spec_beats(ts),
            r.denom > 0,
    {
        self.measure().beats(ts)
    }

    /// Convert to a `Measure`.
    pub fn measure(&self) -> (r: Measure)
        ensures
            r == self.spec_measure(),
    {
        Measure(self.0, Division::Bar, DivType::Whole)
    }

    /// Convert to the unit value of ticks.
    pub fn ticks(&self, ts: TimeSig, ppqn: Ppqn) -> (r: i64)
        requires
            ts.bottom > 0,
            fits_i64(spec_ticks_from_measure(self.0, Division::Bar, DivType::Whole, ts, ppqn as int)),
        ensures
            r == spec_ticks_from_measure(self.0, Division::Bar, DivType::Whole, ts, ppqn as int),
    {
        ticks_from_measure(self.0, Division::Bar, DivType::Whole, ts, ppqn)
    }

    /// Convert to `Ticks`.
    pub fn to_ticks(&self, ts: TimeSig, ppqn: Ppqn) -> (r: Ticks)
        requires
            ts.bottom > 0,
            fits_i64(spec_ticks_from_measure(self.0, Division::Bar, DivType::Whole, ts, ppqn as int)),
        ensures
            r.0 == spec_ticks_from_measure(self.0, Division::Bar, DivType::Whole, ts, ppqn as int),
    {
        Ticks(self.ticks(ts, ppqn))
    }
}

impl Bars {
    /// The number of bars.
    pub fn bars(&self) -> (r: i64)
        ensures
            r == self.0,
    {
        self.0
    }

    /// The count as an unsigned integer, where it is not negative.
    pub fn to_u64(&self) -> (r: Option<u64>)
        ensures
            r == (if self.0 >= 0 { Some(self.0 as u64) } else { None::<u64> }),
    {
        if self.0 >= 0 {
            Some(self.0 as u64)
        } else {
            None
        }
    }

    /// The count as a signed integer.
    pub fn to_i64(&self) -> (r: Option<i64>)
        ensures
            r == Some(self.0),
    {
        Some(self.0)
    }

    /// The duration of `n` bars, where `n` fits the count.
    pub fn from_u64(n: u64) -> (r: Option<Bars>)
        ensures
            r == (if n <= i64::MAX { Some(Bars(n as i64)) } else { None::<Bars> }),
    {
        if n <= i64::MAX as u64 {
            Some(Bars(n as i64))
        } else {
            None
        }
    }

    /// The duration of `n` bars.
    pub fn from_i64(n: i64) -> (r: Option<Bars>)
        ensures
            r == Some(Bars(n)),
    {
        Some(Bars(n))
    }
}

impl vstd::std_specs::convert::FromSpecImpl<i64> for Bars {
    open spec fn obeys_from_spec() -> bool {
        true
    }

    open spec fn from_spec(v: i64) -> Bars {
        Bars(v)
    }
}

impl From<i64> for Bars {
    fn from(n: i64) -> Bars {
        Bars(n)
    }
}

impl vstd::std_specs::ops::AddSpecImpl for Bars {
    open spec fn obeys_add_spec() -> bool {
        true
    }

    open spec fn add_req(self, rhs: Bars) -> bool {
        fits_i64(self.0 + rhs.0)
    }

    open spec fn add_spec(self, rhs: Bars) -> Bars {
        Bars((self.0 + rhs.0) as i64)
    }
}

impl std::ops::Add for Bars {
    type Output = Bars;

    fn add(self, rhs: Bars) -> Bars {
        Bars(self.0 + rhs.0)
    }
}

impl vstd::std_specs::ops::SubSpecImpl for Bars {
    open spec fn obeys_sub_spec() -> bool {
        true
    }

    open spec fn sub_req(self, rhs: Bars) -> bool {
        fits_i64(self.0 - rhs.0)
    }

    open spec fn sub_spec(self, rhs: Bars) -> Bars {
        Bars((self.0 - rhs.0) as i64)
    }
}

impl std::ops::Sub for Bars {
    type Output = Bars;

    fn sub(self, rhs: Bars) -> Bars {
        Bars(self.0 - rhs.0)
    }
}

impl vstd::std_specs::ops::MulSpecImpl for Bars {
    open spec fn obeys_mul_spec() -> bool {
        true
    }

    open spec fn mul_req(self, rhs: Bars) -> bool {
        fits_i64(self.0 * rhs.0)
    }

    open spec fn mul_spec(self, rhs: Bars) -> Bars {
        Bars((self.0 * rhs.0) as i64)
    }
}

impl std::ops::Mul for Bars {
    type Output = Bars;

    fn mul(self, rhs: Bars) -> Bars {
        Bars(self.0 * rhs.0)
    }
}

impl vstd::std_specs::ops::DivSpecImpl for Bars {
    open spec fn obeys_div_spec() -> bool {
        true
    }

    open spec fn div_req(self, rhs: Bars) -> bool {
        rhs.0 != 0 && !(self.0 == i64::MIN && rhs.0 == -1)
    }

    open spec fn div_spec(self, rhs: Bars) -> Bars {
        Bars(trunc_div(self.0 as int, rhs.0 as int) as i64)
    }
}

impl std::ops::Div for Bars {
    type Output = Bars;

    fn div(self, rhs: Bars) -> Bars {
        Bars(self.0 / rhs.0)
    }
}

impl vstd::std_specs::ops::RemSpecImpl for Bars {
    open spec fn obeys_rem_spec() -> bool {
        true
    }

    open spec fn rem_req(self, rhs: Bars) -> bool {
        rhs.0 != 0 && !(self.0 == i64::MIN && rhs.0 == -1)
    }

    open spec fn rem_spec(self, rhs: Bars) -> Bars {
        Bars(trunc_rem(self.0 as int, rhs.0 as int) as i64)
    }
}

impl std::ops::Rem for Bars {
    type Output = Bars;

    fn rem(self, rhs: Bars) -> Bars {
        Bars(self.0 % rhs.0)
    }
}

impl vstd::std_specs::ops::NegSpecImpl for Bars {
    open spec fn obeys_neg_spec() -> bool {
        true
    }

    open spec fn neg_req(self) -> bool {
        self.0 != i64::MIN
    }

    open spec fn neg_spec(self) -> Bars {
        Bars((-self.0) as i64)
    }
}

impl std::ops::Neg for Bars {
    type Output = Bars;

    fn neg(self) -> Bars {
        Bars(-self.0)
    }
}

impl std::ops::AddAssign for Bars {
    fn add_assign(&mut self, rhs: Bars)
        requires
            fits_i64(old(self).0 + rhs.0),
        ensures
            final(self).0 == (old(self).0 + rhs.0),
    {
        *self = *self + rhs;
    }
}

impl std::ops::SubAssign for Bars {
    fn sub_assign(&mut self, rhs: Bars)
        requires
            fits_i64(old(self).0 - rhs.0),
        ensures
            final(self).0 == (old(self).0 - rhs.0),
    {
        *self = *self - rhs;
    }
}

impl std::ops::MulAssign for Bars {
    fn mul_assign(&mut self, rhs: Bars)
        requires
            fits_i64(old(self).0 * rhs.0),
        ensures
            final(self).0 == (old(self).0 * rhs.0),
    {
        *self = *self * rhs;
    }
}

impl std::ops::DivAssign for Bars {
    fn div_assign(&mut self, rhs: Bars)
        requires
            rhs.0 != 0 && !(old(self).0 == i64::MIN && rhs.0 == -1),
        ensures
            final(self).0 == trunc_div(old(self).0 as int, rhs.0 as int) as i64,
    {
        *self = *self / rhs;
    }
}

impl std::ops::RemAssign for Bars {
    fn rem_assign(&mut self, rhs: Bars)
        requires
            rhs.0 != 0 && !(old(self).0 == i64::MIN && rhs.0 == -1),
        ensures
            final(self).0 == trunc_rem(old(self).0 as int, rhs.0 as int),
    {
        *self = *self % rhs;
    }
}


/// The operators on `Bars` obey the laws of integer arithmetic on the count of
/// bars, wherever the results fit an `i64`: `+` and `*` commute, `+`
/// associates, `-` undoes `+`, zero and one are identities, negation is its own
/// inverse, and `(a / b) * b + a % b == a`.
pub proof fn lemma_bars_arithmetic(a: Bars, b: Bars, c: Bars)
    ensures
        a.add_req(b) ==> b.add_req(a) && a.add_spec(b) == b.add_spec(a),
        a.mul_req(b) ==> b.mul_req(a) && a.mul_spec(b) == b.mul_spec(a),
        a.add_req(b) && b.add_req(c) && fits_i64(a.0 + b.0 + c.0) ==> {
            &&& a.add_spec(b).add_req(c)
            &&& a.add_req(b.add_spec(c))
            &&& a.add_spec(b).add_spec(c) == a.add_spec(b.add_spec(c))
        },
        a.add_req(b) ==> a.add_spec(b).sub_req(b) && a.add_spec(b).sub_spec(b) == a,
        a.add_req(Bars(0)) && a.add_spec(Bars(0)) == a,
        a.mul_req(Bars(1)) && a.mul_spec(Bars(1)) == a,
        a.neg_req() ==> {
            &&& a.neg_spec().neg_req()
            &&& a.neg_spec().neg_spec() == a
            &&& a.add_req(a.neg_spec())
            &&& a.add_spec(a.neg_spec()) == Bars(0)
        },
        a.div_req(b) ==> {
            &&& a.rem_req(b)
            &&& a.div_spec(b).mul_req(b)
            &&& a.div_spec(b).mul_spec(b).add_req(a.rem_spec(b))
            &&& a.div_spec(b).mul_spec(b).add_spec(a.rem_spec(b)) == a
        },
{
    lemma_mul_is_commutative(a.0 as int, b.0 as int);
    if a.div_req(b) {
        lemma_trunc_div_fits(a.0 as int, b.0 as int);
        lemma_trunc_div_rem(a.0 as int, b.0 as int);
        lemma_trunc_rem_bounds(a.0 as int, b.0 as int);
    }
}

} // verus!

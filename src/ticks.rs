use vstd::prelude::*;

use vstd::arithmetic::mul::lemma_mul_is_commutative;
use vstd::std_specs::ops::{AddSpec, DivSpec, MulSpec, NegSpec, RemSpec, SubSpec};

use crate::arith::{
    fits_i64, lemma_trunc_div_fits, lemma_trunc_div_rem, lemma_trunc_rem_bounds, trunc_div, trunc_rem,
};
use crate::bars::Bars;
use crate::calc::{lemma_bar_ticks_bounds, spec_ticks_from_measure, Ppqn};
use crate::division::{DivType, Division};
use crate::fraction::Fraction;
use crate::time_sig::TimeSig;

verus! {

/// A duration as a number of ticks.
#[derive(Debug, Clone, Copy, PartialEq, Eq, PartialOrd, Ord, Hash, Structural)]
pub struct Ticks(pub i64);

impl Ticks {
    /// The duration in beats at `ppqn` ticks to the beat: `ticks / ppqn`.
    pub open spec fn spec_beats(self, ppqn: int) -> (int, int) {
        (self.0 as int, ppqn)
    }

    /// The duration in bars: the ticks over the ticks in one bar.
    pub open spec fn spec_bars(self, ts: TimeSig, ppqn: int) -> (int, int) {
        (self.0 as int, spec_ticks_from_measure(1, Division::Bar, DivType::Whole, ts, ppqn))
    }

    /// Convert to the equivalent duration in bars.
    pub fn bars(&self, ts: TimeSig, ppqn: Ppqn) -> (r: Fraction)
        requires
            ts.bottom > 0,
            spec_ticks_from_measure(1, Division::Bar, DivType::Whole, ts, ppqn as int) > 0,
        ensures
            r@ == self.spec_bars(ts, ppqn as int),
    {
        proof {
            lemma_bar_ticks_bounds(ts, ppqn as int);
        }
        let per_bar = Bars(1).ticks(ts, ppqn);
        Fraction { numer: self.0 as i128, denom: per_bar as i128 }
    }

    /// Convert to the equivalent duration in beats.
    pub fn beats(&self, ppqn: Ppqn) -> (r: Fraction)
        requires
            ppqn > 0,
        ensures
            r@ == self.spec_beats(ppqn as int),
    {
        Fraction { numer: self.0 as i128, denom: ppqn as i128 }
    }
}

impl Ticks {
    /// The number of ticks.
    pub fn ticks(&self) -> (r: i64)
        ensures
            r == self.0,
    {
        self.0
    }

    /// The count as an unsigned integer, where it is not negative.
    pub fn to_u64(&self) -> (r: Option<u64>)
        ensures
            r == (if self.0 >= 0 { Some(self.0 as u64) } else { None::<u64> }),
    {
        if self.0 >= 0 {
            Some(self.0 as u64)
        } else {
            None
        }
    }

    /// The count as a signed integer.
    pub fn to_i64(&self) -> (r: Option<i64>)
        ensures
            r == Some(self.0),
    {
        Some(self.0)
    }

    /// The duration of `n` ticks, where `n` fits the count.
    pub fn from_u64(n: u64) -> (r: Option<Ticks>)
        ensures
            r == (if n <= i64::MAX { Some(Ticks(n as i64)) } else { None::<Ticks> }),
    {
        if n <= i64::MAX as u64 {
            Some(Ticks(n as i64))
        } else {
            None
        }
    }

    /// The duration of `n` ticks.
    pub fn from_i64(n: i64) -> (r: Option<Ticks>)
        ensures
            r == Some(Ticks(n)),
    {
        Some(Ticks(n))
    }
}

impl vstd::std_specs::convert::FromSpecImpl<i64> for Ticks {
    open spec fn obeys_from_spec() -> bool {
        true
    }

    open spec fn from_spec(v: i64) -> Ticks {
        Ticks(v)
    }
}

impl From<i64> for Ticks {
    fn from(n: i64) -> Ticks {
        Ticks(n)
    }
}

impl vstd::std_specs::ops::AddSpecImpl for Ticks {
    open spec fn obeys_add_spec() -> bool {
        true
    }

    open spec fn add_req(self, rhs: Ticks) -> bool {
        fits_i64(self.0 + rhs.0)
    }

    open spec fn add_spec(self, rhs: Ticks) -> Ticks {
        Ticks((self.0 + rhs.0) as i64)
    }
}

impl std::ops::Add for Ticks {
    type Output = Ticks;

    fn add(self, rhs: Ticks) -> Ticks {
        Ticks(self.0 + rhs.0)
    }
}

impl vstd::std_specs::ops::SubSpecImpl for Ticks {
    open spec fn obeys_sub_spec() -> bool {
        true
    }

    open spec fn sub_req(self, rhs: Ticks) -> bool {
        fits_i64(self.0 - rhs.0)
    }

    open spec fn sub_spec(self, rhs: Ticks) -> Ticks {
        Ticks((self.0 - rhs.0) as i64)
    }
}

impl std::ops::Sub for Ticks {
    type Output = Ticks;

    fn sub(self, rhs: Ticks) -> Ticks {
        Ticks(self.0 - rhs.0)
    }
}

impl vstd::std_specs::ops::MulSpecImpl for Ticks {
    open spec fn obeys_mul_spec() -> bool {
        true
    }

    open spec fn mul_req(self, rhs: Ticks) -> bool {
        fits_i64(self.0 * rhs.0)
    }

    open spec fn mul_spec(self, rhs: Ticks) -> Ticks {
        Ticks((self.0 * rhs.0) as i64)
    }
}

impl std::ops::Mul for Ticks {
    type Output = Ticks;

    fn mul(self, rhs: Ticks) -> Ticks {
        Ticks(self.0 * rhs.0)
    }
}

impl vstd::std_specs::ops::DivSpecImpl for Ticks {
    open spec fn obeys_div_spec() -> bool {
        true
    }

    open spec fn div_req(self, rhs: Ticks) -> bool {
        rhs.0 != 0 && !(self.0 == i64::MIN && rhs.0 == -1)
    }

    open spec fn div_spec(self, rhs: Ticks) -> Ticks {
        Ticks(trunc_div(self.0 as int, rhs.0 as int) as i64)
    }
}

impl std::ops::Div for Ticks {
    type Output = Ticks;

    fn div(self, rhs: Ticks) -> Ticks {
        Ticks(self.0 / rhs.0)
    }
}

impl vstd::std_specs::ops::RemSpecImpl for Ticks {
    open spec fn obeys_rem_spec() -> bool {
        true
    }

    open spec fn rem_req(self, rhs: Ticks) -> bool {
        rhs.0 != 0 && !(self.0 == i64::MIN && rhs.0 == -1)
    }

    open spec fn rem_spec(self, rhs: Ticks) -> Ticks {
        Ticks(trunc_rem(self.0 as int, rhs.0 as int) as i64)
    }
}

impl std::ops::Rem for Ticks {
    type Output = Ticks;

    fn rem(self, rhs: Ticks) -> Ticks {
        Ticks(self.0 % rhs.0)
    }
}

impl vstd::std_specs::ops::NegSpecImpl for Ticks {
    open spec fn obeys_neg_spec() -> bool {
        true
    }

    open spec fn neg_req(self) -> bool {
        self.0 != i64::MIN
    }

    open spec fn neg_spec(self) -> Ticks {
        Ticks((-self.0) as i64)
    }
}

impl std::ops::Neg for Ticks {
    type Output = Ticks;

    fn neg(self) -> Ticks {
        Ticks(-self.0)
    }
}

impl std::ops::AddAssign for Ticks {
    fn add_assign(&mut self, rhs: Ticks)
        requires
            fits_i64(old(self).0 + rhs.0),
        ensures
            final(self).0 == (old(self).0 + rhs.0),
    {
        *self = *self + rhs;
    }
}

impl std::ops::SubAssign for Ticks {
    fn sub_assign(&mut self, rhs: Ticks)
        requires
            fits_i64(old(self).0 - rhs.0),
        ensures
            final(self).0 == (old(self).0 - rhs.0),
    {
        *self = *self - rhs;
    }
}

impl std::ops::MulAssign for Ticks {
    fn mul_assign(&mut self, rhs: Ticks)
        requires
            fits_i64(old(self).0 * rhs.0),
        ensures
            final(self).0 == (old(self).0 * rhs.0),
    {
        *self = *self * rhs;
    }
}

impl std::ops::DivAssign for Ticks {
    fn div_assign(&mut self, rhs: Ticks)
        requires
            rhs.0 != 0 && !(old(self).0 == i64::MIN && rhs.0 == -1),
        ensures
            final(self).0 == trunc_div(old(self).0 as int, rhs.0 as int) as i64,
    {
        *self = *self / rhs;
    }
}

impl std::ops::RemAssign for Ticks {
    fn rem_assign(&mut self, rhs: Ticks)
        requires
            rhs.0 != 0 && !(old(self).0 == i64::MIN && rhs.0 == -1),
        ensures
            final(self).0 == trunc_rem(old(self).0 as int, rhs.0 as int),
    {
        *self = *self % rhs;
    }
}


/// The operators on `Ticks` obey the laws of integer arithmetic on the count of
/// ticks, wherever the results fit an `i64`: `+` and `*` commute, `+`
/// associates, `-` undoes `+`, zero and one are identities, negation is its own
/// inverse, and `(a / b) * b + a % b == a`.
pub proof fn lemma_ticks_arithmetic(a: Ticks, b: Ticks, c: Ticks)
    ensures
        a.add_req(b) ==> b.add_req(a) && a.add_spec(b) == b.add_spec(a),
        a.mul_req(b) ==> b.mul_req(a) && a.mul_spec(b) == b.mul_spec(a),
        a.add_req(b) && b.add_req(c) && fits_i64(a.0 + b.0 + c.0) ==> {
            &&& a.add_spec(b).add_req(c)
            &&& a.add_req(b.add_spec(c))
            &&& a.add_spec(b).add_spec(c) == a.add_spec(b.add_spec(c))
        },
        a.add_req(b) ==> a.add_spec(b).sub_req(b) && a.add_spec(b).sub_spec(b) == a,
        a.add_req(Ticks(0)) && a.add_spec(Ticks(0)) == a,
        a.mul_req(Ticks(1)) && a.mul_spec(Ticks(1)) == a,
        a.neg_req() ==> {
            &&& a.neg_spec().neg_req()
            &&& a.neg_spec().neg_spec() == a
            &&& a.add_req(a.neg_spec())
            &&& a.add_spec(a.neg_spec()) == Ticks(0)
        },
        a.div_req(b) ==> {
            &&& a.rem_req(b)
            &&& a.div_spec(b).mul_req(b)
            &&& a.div_spec(b).mul_spec(b).add_req(a.rem_spec(b))
            &&& a.div_spec(b).mul_spec(b).add_spec(a.rem_spec(b)) == a
        },
{
    lemma_mul_is_commutative(a.0 as int, b.0 as int);
    if a.div_req(b) {
        lemma_trunc_div_fits(a.0 as int, b.0 as int);
        lemma_trunc_div_rem(a.0 as int, b.0 as int);
        lemma_trunc_rem_bounds(a.0 as int, b.0 as int);
    }
}

} // verus!

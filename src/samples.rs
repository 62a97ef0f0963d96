use vstd::prelude::*;

use vstd::arithmetic::mul::lemma_mul_is_commutative;
use vstd::std_specs::ops::{AddSpec, DivSpec, MulSpec, NegSpec, RemSpec, SubSpec};

use crate::arith::{
    fits_i64, lemma_trunc_div_fits, lemma_trunc_div_rem, lemma_trunc_rem_bounds, trunc_div, trunc_rem,
};

verus! {

/// A duration as a number of audio samples.
#[derive(Debug, Clone, Copy, PartialEq, Eq, PartialOrd, Ord, Hash, Structural)]
pub struct Samples(pub i64);

impl Samples {
    /// The number of samples.
    pub fn samples(&self) -> (r: i64)
        ensures
            r == self.0,
    {
        self.0
    }

    /// The count as an unsigned integer, where it is not negative.
    pub fn to_u64(&self) -> (r: Option<u64>)
        ensures
            r == (if self.0 >= 0 { Some(self.0 as u64) } else { None::<u64> }),
    {
        if self.0 >= 0 {
            Some(self.0 as u64)
        } else {
            None
        }
    }

    /// The count as a signed integer.
    pub fn to_i64(&self) -> (r: Option<i64>)
        ensures
            r == Some(self.0),
    {
        Some(self.0)
    }

    /// The duration of `n` samples, where `n` fits the count.
    pub fn from_u64(n: u64) -> (r: Option<Samples>)
        ensures
            r == (if n <= i64::MAX { Some(Samples(n as i64)) } else { None::<Samples> }),
    {
        if n <= i64::MAX as u64 {
            Some(Samples(n as i64))
        } else {
            None
        }
    }

    /// The duration of `n` samples.
    pub fn from_i64(n: i64) -> (r: Option<Samples>)
        ensures
            r == Some(Samples(n)),
    {
        Some(Samples(n))
    }
}

impl vstd::std_specs::convert::FromSpecImpl<i64> for Samples {
    open spec fn obeys_from_spec() -> bool {
        true
    }

    open spec fn from_spec(v: i64) -> Samples {
        Samples(v)
    }
}

impl From<i64> for Samples {
    fn from(n: i64) -> Samples {
        Samples(n)
    }
}

impl vstd::std_specs::ops::AddSpecImpl for Samples {
    open spec fn obeys_add_spec() -> bool {
        true
    }

    open spec fn add_req(self, rhs: Samples) -> bool {
        fits_i64(self.0 + rhs.0)
    }

    open spec fn add_spec(self, rhs: Samples) -> Samples {
        Samples((self.0 + rhs.0) as i64)
    }
}

impl std::ops::Add for Samples {
    type Output = Samples;

    fn add(self, rhs: Samples) -> Samples {
        Samples(self.0 + rhs.0)
    }
}

impl vstd::std_specs::ops::SubSpecImpl for Samples {
    open spec fn obeys_sub_spec() -> bool {
        true
    }

    open spec fn sub_req(self, rhs: Samples) -> bool {
        fits_i64(self.0 - rhs.0)
    }

    open spec fn sub_spec(self, rhs: Samples) -> Samples {
        Samples((self.0 - rhs.0) as i64)
    }
}

impl std::ops::Sub for Samples {
    type Output = Samples;

    fn sub(self, rhs: Samples) -> Samples {
        Samples(self.0 - rhs.0)
    }
}

impl vstd::std_specs::ops::MulSpecImpl for Samples {
    open spec fn obeys_mul_spec() -> bool {
        true
    }

    open spec fn mul_req(self, rhs: Samples) -> bool {
        fits_i64(self.0 * rhs.0)
    }

    open spec fn mul_spec(self, rhs: Samples) -> Samples {
        Samples((self.0 * rhs.0) as i64)
    }
}

impl std::ops::Mul for Samples {
    type Output = Samples;

    fn mul(self, rhs: Samples) -> Samples {
        Samples(self.0 * rhs.0)
    }
}

impl vstd::std_specs::ops::DivSpecImpl for Samples {
    open spec fn obeys_div_spec() -> bool {
        true
    }

    open spec fn div_req(self, rhs: Samples) -> bool {
        rhs.0 != 0 && !(self.0 == i64::MIN && rhs.0 == -1)
    }

    open spec fn div_spec(self, rhs: Samples) -> Samples {
        Samples(trunc_div(self.0 as int, rhs.0 as int) as i64)
    }
}

impl std::ops::Div for Samples {
    type Output = Samples;

    fn div(self, rhs: Samples) -> Samples {
        Samples(self.0 / rhs.0)
    }
}

impl vstd::std_specs::ops::RemSpecImpl for Samples {
    open spec fn obeys_rem_spec() -> bool {
        true
    }

    open spec fn rem_req(self, rhs: Samples) -> bool {
        rhs.0 != 0 && !(self.0 == i64::MIN && rhs.0 == -1)
    }

    open spec fn rem_spec(self, rhs: Samples) -> Samples {
        Samples(trunc_rem(self.0 as int, rhs.0 as int) as i64)
    }
}

impl std::ops::Rem for Samples {
    type Output = Samples;

    fn rem(self, rhs: Samples) -> Samples {
        Samples(self.0 % rhs.0)
    }
}

impl vstd::std_specs::ops::NegSpecImpl for Samples {
    open spec fn obeys_neg_spec() -> bool {
        true
    }

    open spec fn neg_req(self) -> bool {
        self.0 != i64::MIN
    }

    open spec fn neg_spec(self) -> Samples {
        Samples((-self.0) as i64)
    }
}

impl std::ops::Neg for Samples {
    type Output = Samples;

    fn neg(self) -> Samples {
        Samples(-self.0)
    }
}

impl std::ops::AddAssign for Samples {
    fn add_assign(&mut self, rhs: Samples)
        requires
            fits_i64(old(self).0 + rhs.0),
        ensures
            final(self).0 == (old(self).0 + rhs.0),
    {
        *self = *self + rhs;
    }
}

impl std::ops::SubAssign for Samples {
    fn sub_assign(&mut self, rhs: Samples)
        requires
            fits_i64(old(self).0 - rhs.0),
        ensures
            final(self).0 == (old(self).0 - rhs.0),
    {
        *self = *self - rhs;
    }
}

impl std::ops::MulAssign for Samples {
    fn mul_assign(&mut self, rhs: Samples)
        requires
            fits_i64(old(self).0 * rhs.0),
        ensures
            final(self).0 == (old(self).0 * rhs.0),
    {
        *self = *self * rhs;
    }
}

impl std::ops::DivAssign for Samples {
    fn div_assign(&mut self, rhs: Samples)
        requires
            rhs.0 != 0 && !(old(self).0 == i64::MIN && rhs.0 == -1),
        ensures
            final(self).0 == trunc_div(old(self).0 as int, rhs.0 as int) as i64,
    {
        *self = *self / rhs;
    }
}

impl std::ops::RemAssign for Samples {
    fn rem_assign(&mut self, rhs: Samples)
        requires
            rhs.0 != 0 && !(old(self).0 == i64::MIN && rhs.0 == -1),
        ensures
            final(self).0 == trunc_rem(old(self).0 as int, rhs.0 as int),
    {
        *self = *self % rhs;
    }
}


/// The operators on `Samples` obey the laws of integer arithmetic on the count of
/// samples, wherever the results fit an `i64`: `+` and `*` commute, `+`
/// associates, `-` undoes `+`, zero and one are identities, negation is its own
/// inverse, and `(a / b) * b + a % b == a`.
pub proof fn lemma_samples_arithmetic(a: Samples, b: Samples, c: Samples)
    ensures
        a.add_req(b) ==> b.add_req(a) && a.add_spec(b) == b.add_spec(a),
        a.mul_req(b) ==> b.mul_req(a) && a.mul_spec(b) == b.mul_spec(a),
        a.add_req(b) && b.add_req(c) && fits_i64(a.0 + b.0 + c.0) ==> {
            &&& a.add_spec(b).add_req(c)
            &&& a.add_req(b.add_spec(c))
            &&& a.add_spec(b).add_spec(c) == a.add_spec(b.add_spec(c))
        },
        a.add_req(b) ==> a.add_spec(b).sub_req(b) && a.add_spec(b).sub_spec(b) == a,
        a.add_req(Samples(0)) && a.add_spec(Samples(0)) == a,
        a.mul_req(Samples(1)) && a.mul_spec(Samples(1)) == a,
        a.neg_req() ==> {
            &&& a.neg_spec().neg_req()
            &&& a.neg_spec().neg_spec() == a
            &&& a.add_req(a.neg_spec())
            &&& a.add_spec(a.neg_spec()) == Samples(0)
        },
        a.div_req(b) ==> {
            &&& a.rem_req(b)
            &&& a.div_spec(b).mul_req(b)
            &&& a.div_spec(b).mul_spec(b).add_req(a.rem_spec(b))
            &&& a.div_spec(b).mul_spec(b).add_spec(a.rem_spec(b)) == a
        },
{
    lemma_mul_is_commutative(a.0 as int, b.0 as int);
    if a.div_req(b) {
        lemma_trunc_div_fits(a.0 as int, b.0 as int);
        lemma_trunc_div_rem(a.0 as int, b.0 as int);
        lemma_trunc_rem_bounds(a.0 as int, b.0 as int);
    }
}

} // verus!

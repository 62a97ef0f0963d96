use vstd::prelude::*;

verus! {

/// An exact rational number `numer / denom`, not necessarily in lowest terms.
#[derive(Debug, Clone, Copy)]
pub struct Fraction {
    pub numer: i128,
    pub denom: i128,
}

impl View for Fraction {
    /// The numerator and the denominator as mathematical integers.
    type V = (int, int);

    open spec fn view(&self) -> (int, int) {
        (self.numer as int, self.denom as int)
    }
}

/// The pair `(numerator, denominator)` stands for the whole number `n`.
pub open spec fn is_whole(a: (int, int), n: int) -> bool {
    a.0 == n * a.1
}

/// A bound on a product from bounds on its factors.
pub proof fn lemma_mul_within(a: int, b: int, x: int, y: int)
    requires
        -x <= a <= x,
        -y <= b <= y,
    ensures
        -(x * y) <= a * b <= x * y,
{
    assert(-(x * y) <= a * b <= x * y) by (nonlinear_arith)
        requires
            -x <= a <= x,
            -y <= b <= y,
    ;
}

} // verus!

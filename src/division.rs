use vstd::arithmetic::power2::{lemma2_to64, pow2};
use vstd::prelude::*;

use crate::fraction::Fraction;
use crate::time_sig::TimeSig;

verus! {

/// A signed count of divisions, such as the `3` in "three bars".
pub type NumDiv = i64;

/// The finest zoom step: the index of `Division::OneThousandTwentyFourth`.
pub const HIGHEST_ZOOM_STEP: u8 = 10;

/// A musical division, from a whole bar down to a 1/1024 note.
///
/// The divisions form a ladder of zoom steps `0..=10`, `Bar` at step 0 and each
/// later variant one step finer.
#[derive(Debug, Clone, Copy, PartialEq, Eq, Hash, Structural)]
pub enum Division {
    Bar,
    Minim,
    Beat,
    Quaver,
    SemiQuaver,
    ThirtySecond,
    SixtyFourth,
    OneHundredTwentyEighth,
    TwoHundredFiftySixth,
    FiveHundredTwelfth,
    OneThousandTwentyFourth,
}

/// The division at zoom step `i` of the ladder, for `0 <= i <= 10`.
pub open spec fn division_at(i: int) -> Division
    recommends
        0 <= i <= 10,
{
    if i <= 0 {
        Division::Bar
    } else if i == 1 {
        Division::Minim
    } else if i == 2 {
        Division::Beat
    } else if i == 3 {
        Division::Quaver
    } else if i == 4 {
        Division::SemiQuaver
    } else if i == 5 {
        Division::ThirtySecond
    } else if i == 6 {
        Division::SixtyFourth
    } else if i == 7 {
        Division::OneHundredTwentyEighth
    } else if i == 8 {
        Division::TwoHundredFiftySixth
    } else if i == 9 {
        Division::FiveHundredTwelfth
    } else {
        Division::OneThousandTwentyFourth
    }
}

impl Division {
    /// The zoom step of this division on the ladder.
    pub open spec fn step(self) -> int {
        match self {
            Division::Bar => 0,
            Division::Minim => 1,
            Division::Beat => 2,
            Division::Quaver => 3,
            Division::SemiQuaver => 4,
            Division::ThirtySecond => 5,
            Division::SixtyFourth => 6,
            Division::OneHundredTwentyEighth => 7,
            Division::TwoHundredFiftySixth => 8,
            Division::FiveHundredTwelfth => 9,
            Division::OneThousandTwentyFourth => 10,
        }
    }

    /// One unit of this division in quarter notes, as `(numerator, denominator)`:
    /// a bar lasts `4 * top / bottom` quarter notes, and every other division lasts
    /// `2^(2 - step)`, whatever the time signature.
    pub open spec fn spec_beats(self, ts: TimeSig) -> (int, int) {
        if self is Bar {
            ts.spec_beats_per_bar()
        } else if self.step() <= 2 {
            (pow2((2 - self.step()) as nat) as int, 1)
        } else {
            (1, pow2((self.step() - 2) as nat) as int)
        }
    }

    /// One unit of this division in bars, as `(numerator, denominator)`.
    pub open spec fn spec_bars(self, ts: TimeSig) -> (int, int) {
        if self is Bar {
            (1, 1)
        } else {
            (self.spec_beats(ts).0 * ts.bottom, self.spec_beats(ts).1 * (4 * ts.top))
        }
    }

    /// The division `steps` finer than this one, if the ladder reaches that far.
    pub open spec fn spec_zoom_in(self, steps: int) -> Option<Division> {
        if self.step() + steps <= HIGHEST_ZOOM_STEP {
            Some(division_at(self.step() + steps))
        } else {
            None
        }
    }

    /// The division `steps` coarser than this one, if the ladder reaches that far.
    pub open spec fn spec_zoom_out(self, steps: int) -> Option<Division> {
        if steps <= self.step() {
            Some(division_at(self.step() - steps))
        } else {
            None
        }
    }

    /// The division at zoom step `num`.
    pub fn from_isize(num: isize) -> (r: Division)
        requires
            0 <= num <= 10,
        ensures
            r == division_at(num as int),
            r.step() == num,
    {
        match num {
            0 => Division::Bar,
            1 => Division::Minim,
            2 => Division::Beat,
            3 => Division::Quaver,
            4 => Division::SemiQuaver,
            5 => Division::ThirtySecond,
            6 => Division::SixtyFourth,
            7 => Division::OneHundredTwentyEighth,
            8 => Division::TwoHundredFiftySixth,
            9 => Division::FiveHundredTwelfth,
            _ => Division::OneThousandTwentyFourth,
        }
    }

    /// Convert to the equivalent duration as a number of beats (quarter notes).
    pub fn beats(&self, ts: TimeSig) -> (r: Fraction)
        requires
            *self is Bar ==> ts.bottom > 0,
        ensures
            r@ == self.spec_beats(ts),
            0 <= r.numer <= 4 * 0xffff,
            1 <= r.denom <= 0xffff,
    {
        proof {
            lemma2_to64();
        }
        match *self {
            Division::Bar => ts.beats_per_bar(),
            Division::Minim => Fraction { numer: 2, denom: 1 },
            Division::Beat => Fraction { numer: 1, denom: 1 },
            Division::Quaver => Fraction { numer: 1, denom: 2 },
            Division::SemiQuaver => Fraction { numer: 1, denom: 4 },
            Division::ThirtySecond => Fraction { numer: 1, denom: 8 },
            Division::SixtyFourth => Fraction { numer: 1, denom: 16 },
            Division::OneHundredTwentyEighth => Fraction { numer: 1, denom: 32 },
            Division::TwoHundredFiftySixth => Fraction { numer: 1, denom: 64 },
            Division::FiveHundredTwelfth => Fraction { numer: 1, denom: 128 },
            Division::OneThousandTwentyFourth => Fraction { numer: 1, denom: 256 },
        }
    }

    /// Convert to the equivalent duration as a number of bars.
    pub fn bars(&self, ts: TimeSig) -> (r: Fraction)
        requires
            *self is Bar || (ts.top > 0 && ts.bottom > 0),
        ensures
            r@ == self.spec_bars(ts),
            r.denom > 0,
    {
        match *self {
            Division::Bar => Fraction { numer: 1, denom: 1 },
            _ => {
                let b = self.beats(ts);
                proof {
                    lemma2_to64();
                    assert(1 <= b.numer <= 2 && 1 <= b.denom <= 256);
                    assert(b.numer * ts.bottom <= 2 * 0xffff) by (nonlinear_arith)
                        requires
                            b.numer <= 2,
                            ts.bottom <= 0xffff,
                    ;
                    assert(0 < b.denom * (4 * ts.top) <= 256 * 4 * 0xffff) by (nonlinear_arith)
                        requires
                            1 <= b.denom <= 256,
                            1 <= ts.top <= 0xffff,
                    ;
                }
                Fraction { numer: b.numer * ts.bottom as i128, denom: b.denom * (4 * ts.top as i128) }
            },
        }
    }

    /// Zoom into a finer division by the given number of steps.
    pub fn zoom_in(&self, steps: u8) -> (r: Option<Division>)
        ensures
            r == self.spec_zoom_in(steps as int),
    {
        let zoom_step: u16 = self.to_u8() as u16 + steps as u16;
        if zoom_step <= HIGHEST_ZOOM_STEP as u16 {
            Some(Division::from_isize(zoom_step as isize))
        } else {
            None
        }
    }

    /// Zoom out to a coarser division by the given number of steps.
    pub fn zoom_out(&self, steps: u8) -> (r: Option<Division>)
        ensures
            r == self.spec_zoom_out(steps as int),
    {
        let current_zoom_step = self.to_u8();
        if steps <= current_zoom_step {
            Some(Division::from_isize((current_zoom_step - steps) as isize))
        } else {
            None
        }
    }

    /// The zoom step as a byte.
    pub fn to_u8(&self) -> (r: u8)
        ensures
            r == self.step(),
    {
        match *self {
            Division::Bar => 0,
            Division::Minim => 1,
            Division::Beat => 2,
            Division::Quaver => 3,
            Division::SemiQuaver => 4,
            Division::ThirtySecond => 5,
            Division::SixtyFourth => 6,
            Division::OneHundredTwentyEighth => 7,
            Division::TwoHundredFiftySixth => 8,
            Division::FiveHundredTwelfth => 9,
            Division::OneThousandTwentyFourth => 10,
        }
    }

    /// The zoom step as a signed byte.
    pub fn to_i8(&self) -> (r: i8)
        ensures
            r == self.step(),
    {
        self.to_u8() as i8
    }

    /// The division at zoom step `n`, or `None` past the finest division.
    pub fn from_u64(n: u64) -> (r: Option<Division>)
        ensures
            r == (if n <= 10 { Some(division_at(n as int)) } else { None::<Division> }),
    {
        if n <= HIGHEST_ZOOM_STEP as u64 {
            Some(Division::from_isize(n as isize))
        } else {
            None
        }
    }

    /// The division at zoom step `n`, or `None` where no step `n` exists.
    pub fn from_i64(n: i64) -> (r: Option<Division>)
        ensures
            r == (if 0 <= n <= 10 { Some(division_at(n as int)) } else { None::<Division> }),
    {
        if n < 0 {
            None
        } else {
            Division::from_u64(n as u64)
        }
    }

    /// The zoom step as an unsigned integer; every division has one.
    pub fn to_u64(&self) -> (r: Option<u64>)
        ensures
            r == Some(self.step() as u64),
    {
        Some(self.to_u8() as u64)
    }

    /// The zoom step as a signed integer; every division has one.
    pub fn to_i64(&self) -> (r: Option<i64>)
        ensures
            r == Some(self.step() as i64),
    {
        Some(self.to_u8() as i64)
    }
}

/// The ladder has one division at each step from 0 to 10: the step of the
/// division at step `i` is `i`.
pub proof fn lemma_step_of_division_at(i: int)
    requires
        0 <= i <= 10,
    ensures
        division_at(i).step() == i,
{
}

/// Each division sits at its own step, which lies between 0 and 10.
pub proof fn lemma_division_at_step(d: Division)
    ensures
        division_at(d.step()) == d,
        0 <= d.step() <= 10,
{
}

/// Zooming never leaves the ladder. Zooming in by `steps` gives the division that
/// many steps finer, or nothing past `OneThousandTwentyFourth`; zooming out gives
/// the division that many steps coarser, or nothing past `Bar`; and zooming out
/// undoes zooming in.
pub proof fn lemma_zoom_stays_on_ladder(d: Division, steps: int)
    requires
        steps >= 0,
    ensures
        match d.spec_zoom_in(steps) {
            Some(e) => e.step() == d.step() + steps && 0 <= e.step() <= 10,
            None => d.step() + steps > 10,
        },
        match d.spec_zoom_out(steps) {
            Some(e) => e.step() == d.step() - steps && 0 <= e.step() <= 10,
            None => d.step() - steps < 0,
        },
        d.spec_zoom_in(steps) matches Some(e) ==> e.spec_zoom_out(steps) == Some(d),
{
    lemma_division_at_step(d);
    if d.step() + steps <= 10 {
        lemma_step_of_division_at(d.step() + steps);
    }
    if steps <= d.step() {
        lemma_step_of_division_at(d.step() - steps);
    }
}

/// Below the bar, each step finer on the ladder halves the length of a division,
/// whatever the time signature: the division one step finer than `d` lasts
/// half as many quarter notes as `d`.
pub proof fn lemma_finer_division_halves(d: Division, ts: TimeSig)
    requires
        !(d is Bar),
        d.step() < 10,
    ensures
        ({
            let coarse = d.spec_beats(ts);
            let fine = division_at(d.step() + 1).spec_beats(ts);
            2 * fine.0 * coarse.1 == coarse.0 * fine.1
        }),
{
    lemma2_to64();
    let s = d.step();
    lemma_step_of_division_at(s + 1);
    let coarse = d.spec_beats(ts);
    let fine = division_at(s + 1).spec_beats(ts);
    let (a, b, x, y) = (fine.0, coarse.1, coarse.0, fine.1);
    if s == 1 {
        assert(2 * a * b == x * y) by (nonlinear_arith)
            requires
                a == 1 && b == 1 && x == 2 && y == 1,
        ;
    } else if s == 2 {
        assert(2 * a * b == x * y) by (nonlinear_arith)
            requires
                a == 1 && b == 1 && x == 1 && y == 2,
        ;
    } else {
        assert(y == 2 * b);
        assert(2 * a * b == x * y) by (nonlinear_arith)
            requires
                a == 1 && x == 1 && y == 2 * b,
        ;
    }
}

impl vstd::std_specs::ops::AddSpecImpl<isize> for Division {
    open spec fn obeys_add_spec() -> bool {
        true
    }

    open spec fn add_req(self, rhs: isize) -> bool {
        isize::MIN <= self.step() + rhs <= isize::MAX
    }

    open spec fn add_spec(self, rhs: isize) -> isize {
        (self.step() + rhs) as isize
    }
}

impl std::ops::Add<isize> for Division {
    type Output = isize;

    /// The zoom step moved on by `rhs`.
    fn add(self, rhs: isize) -> (r: isize) {
        self.to_u8() as isize + rhs
    }
}

impl vstd::std_specs::ops::SubSpecImpl<isize> for Division {
    open spec fn obeys_sub_spec() -> bool {
        true
    }

    open spec fn sub_req(self, rhs: isize) -> bool {
        isize::MIN <= self.step() - rhs <= isize::MAX
    }

    open spec fn sub_spec(self, rhs: isize) -> isize {
        (self.step() - rhs) as isize
    }
}

impl std::ops::Sub<isize> for Division {
    type Output = isize;

    /// The zoom step moved back by `rhs`.
    fn sub(self, rhs: isize) -> (r: isize) {
        self.to_u8() as isize - rhs
    }
}

/// Whether a division is taken whole or as two thirds of itself (a triplet).
#[derive(Debug, Clone, Copy, PartialEq, Eq, Hash, Structural)]
pub enum DivType {
    Whole,
    TwoThirds,
}

impl DivType {
    /// The index of this variant: `Whole` is 0, `TwoThirds` is 1.
    pub open spec fn index(self) -> int {
        match self {
            DivType::Whole => 0,
            DivType::TwoThirds => 1,
        }
    }

    /// The variant with index `num`.
    pub fn from_isize(num: isize) -> (r: DivType)
        requires
            0 <= num <= 1,
        ensures
            r.index() == num,
    {
        if num == 0 {
            DivType::Whole
        } else {
            DivType::TwoThirds
        }
    }

    /// The variant with index `n`, or `None` where there is none.
    pub fn from_u64(n: u64) -> (r: Option<DivType>)
        ensures
            r matches Some(t) ==> n <= 1 && t.index() == n,
            r is None <==> n > 1,
    {
        match n {
            0 => Some(DivType::Whole),
            1 => Some(DivType::TwoThirds),
            _ => None,
        }
    }

    /// The variant with index `n`, or `None` where there is none.
    pub fn from_i64(n: i64) -> (r: Option<DivType>)
        ensures
            r matches Some(t) ==> 0 <= n <= 1 && t.index() == n,
            r is None <==> !(0 <= n <= 1),
    {
        if n < 0 {
            None
        } else {
            DivType::from_u64(n as u64)
        }
    }

    /// The index as an unsigned integer; every variant has one.
    pub fn to_u64(&self) -> (r: Option<u64>)
        ensures
            r == Some(self.index() as u64),
    {
        match *self {
            DivType::Whole => Some(0),
            DivType::TwoThirds => Some(1),
        }
    }

    /// The index as a signed integer; every variant has one.
    pub fn to_i64(&self) -> (r: Option<i64>)
        ensures
            r == Some(self.index() as i64),
    {
        match *self {
            DivType::Whole => Some(0),
            DivType::TwoThirds => Some(1),
        }
    }

    /// `Whole` for heads, `TwoThirds` for tails.
    pub fn from_flip(heads: bool) -> (r: DivType)
        ensures
            r == (if heads { DivType::Whole } else { DivType::TwoThirds }),
    {
        if heads {
            DivType::Whole
        } else {
            DivType::TwoThirds
        }
    }

    /// A division type drawn from the operating system's random source, each
    /// with even chance, or `None` where that source fails.
    pub fn random() -> (r: Option<DivType>) {
        match os_random_byte() {
            Ok(byte) => Some(DivType::from_flip(byte % 2 == 0)),
            Err(_) => None,
        }
    }
}

/// The error type of the `rand` crate, carried through opaquely.
#[verifier::external_type_specification]
#[verifier::external_body]
pub struct ExRandError(rand::Error);

/// Relies on rand_core's `OsRng::try_fill_bytes`: it fills the buffer from the
/// operating system's random source, or returns that source's error instead of
/// panicking. Nothing is known of which byte comes out.
#[verifier::external_body]
fn os_random_byte() -> (r: Result<u8, rand::Error>) {
    let mut buf = [0u8; 1];
    match rand::RngCore::try_fill_bytes(&mut rand::rngs::OsRng, &mut buf) {
        Ok(()) => Ok(buf[0]),
        Err(e) => Err(e),
    }
}

impl vstd::std_specs::ops::AddSpecImpl<isize> for DivType {
    open spec fn obeys_add_spec() -> bool {
        true
    }

    open spec fn add_req(self, rhs: isize) -> bool {
        isize::MIN <= self.index() + rhs <= isize::MAX
    }

    open spec fn add_spec(self, rhs: isize) -> isize {
        (self.index() + rhs) as isize
    }
}

impl std::ops::Add<isize> for DivType {
    type Output = isize;

    /// The index moved on by `rhs`.
    fn add(self, rhs: isize) -> (r: isize) {
        let i: isize = match self {
            DivType::Whole => 0,
            DivType::TwoThirds => 1,
        };
        i + rhs
    }
}

impl vstd::std_specs::ops::SubSpecImpl<isize> for DivType {
    open spec fn obeys_sub_spec() -> bool {
        true
    }

    open spec fn sub_req(self, rhs: isize) -> bool {
        isize::MIN <= self.index() - rhs <= isize::MAX
    }

    open spec fn sub_spec(self, rhs: isize) -> isize {
        (self.index() - rhs) as isize
    }
}

impl std::ops::Sub<isize> for DivType {
    type Output = isize;

    /// The index moved back by `rhs`.
    fn sub(self, rhs: isize) -> (r: isize) {
        let i: isize = match self {
            DivType::Whole => 0,
            DivType::TwoThirds => 1,
        };
        i - rhs
    }
}

} // verus!

//! Signed decimal fixed-point numbers with nine fractional digits.
//!
//! A [`Fixed`] stores an integer count of billionths. Every operation is
//! total: a result that would leave the range of the storage is clamped to
//! the nearest end of that range, and a quotient that is not a whole number
//! of billionths is cut off toward zero.

use vstd::prelude::*;

verus! {

/// The raw count that stands for the number one.
pub const ONE: i64 = 1_000_000_000;

/// How many terms of the exponential series are summed.
pub const EXP_TERMS: u64 = 96;

/// `v` clamped to the range of the storage.
pub open spec fn saturate(v: int) -> int {
    if v < i64::MIN {
        i64::MIN as int
    } else if v > i64::MAX {
        i64::MAX as int
    } else {
        v
    }
}

/// The quotient of `n` by a positive `d`, cut off toward zero.
pub open spec fn quotient(n: int, d: int) -> int
    recommends
        d > 0,
{
    if n >= 0 {
        n / d
    } else {
        -((-n) / d)
    }
}

/// Raw sum of two raw counts.
pub open spec fn fx_add(a: int, b: int) -> int {
    saturate(a + b)
}

/// Raw difference of two raw counts.
pub open spec fn fx_sub(a: int, b: int) -> int {
    saturate(a - b)
}

/// Raw negation of a raw count.
pub open spec fn fx_neg(a: int) -> int {
    saturate(-a)
}

/// Raw count of the product of the numbers that `a` and `b` stand for.
pub open spec fn fx_mul(a: int, b: int) -> int {
    saturate(quotient(a * b, ONE as int))
}

/// Raw count of the number that `a` stands for, taken `n` times.
pub open spec fn fx_scale(a: int, n: int) -> int {
    saturate(a * n)
}

/// Raw count of the number that `a` stands for, divided by the one that a
/// non-zero `b` stands for.
pub open spec fn fx_div(a: int, b: int) -> int
    recommends
        b != 0,
{
    if b > 0 {
        saturate(quotient(a * ONE, b))
    } else {
        saturate(quotient(-a * ONE, -b))
    }
}

/// Raw count of the fraction `num / den` of two whole numbers, `den > 0`.
pub open spec fn fx_ratio(num: int, den: int) -> int
    recommends
        den > 0,
{
    saturate(quotient(num * ONE, den))
}

/// Term `i` of the series `1 + y + y²/2! + y³/3! + …` in raw counts, each
/// term derived from the one before it and cut off to a whole count.
pub open spec fn exp_term(y: nat, i: nat) -> nat
    decreases i,
{
    if i == 0 {
        ONE as nat
    } else {
        (exp_term(y, (i - 1) as nat) * y) / (i * (ONE as nat))
    }
}

/// Sum of the first `n` terms of the series.
pub open spec fn exp_partial(y: nat, n: nat) -> nat
    decreases n,
{
    if n == 0 {
        0
    } else {
        exp_partial(y, (n - 1) as nat) + exp_term(y, (n - 1) as nat)
    }
}

/// Raw count of `e` raised to the non-negative number that `y` stands for.
pub open spec fn exp_growth(y: nat) -> int {
    saturate(exp_partial(y, EXP_TERMS as nat) as int)
}

/// Raw count of `e` raised to the number that `x` stands for. A negative
/// power is the reciprocal of the positive one.
pub open spec fn fx_exp(x: int) -> int {
    if x >= 0 {
        exp_growth(x as nat)
    } else {
        (ONE * ONE) / exp_growth((-x) as nat)
    }
}

/// The larger of two raw counts.
pub open spec fn fx_max(a: int, b: int) -> int {
    if a >= b {
        a
    } else {
        b
    }
}

/// The smaller of two raw counts.
pub open spec fn fx_min(a: int, b: int) -> int {
    if a <= b {
        a
    } else {
        b
    }
}

/// Later partial sums of the series are never smaller than earlier ones.
pub proof fn lemma_exp_partial_monotone(y: nat, n: nat, m: nat)
    requires
        n <= m,
    ensures
        exp_partial(y, n) <= exp_partial(y, m),
    decreases m,
{
    if n < m {
        lemma_exp_partial_monotone(y, n, (m - 1) as nat);
    }
}

/// Every non-empty partial sum holds at least the leading one.
pub proof fn lemma_exp_partial_at_least_one(y: nat, n: nat)
    requires
        n >= 1,
    ensures
        exp_partial(y, n) >= ONE,
{
    assert(exp_partial(y, 1) == exp_partial(y, 0) + exp_term(y, 0));
    lemma_exp_partial_monotone(y, 1, n);
}

/// For the power zero every term after the first vanishes.
pub proof fn lemma_exp_partial_of_zero(n: nat)
    requires
        n >= 1,
    ensures
        exp_partial(0, n) == ONE,
    decreases n,
{
    if n == 1 {
        assert(exp_partial(0, 1) == exp_partial(0, 0) + exp_term(0, 0));
    } else {
        lemma_exp_partial_of_zero((n - 1) as nat);
        let prev = exp_term(0, (n - 2) as nat);
        assert(prev * 0 == 0) by (nonlinear_arith);
        assert(exp_term(0, (n - 1) as nat) == (prev * 0) / ((n - 1) as nat * (ONE as nat)));
        assert(0nat / ((n - 1) as nat * (ONE as nat)) == 0) by (nonlinear_arith)
            requires
                n >= 2,
        ;
    }
}

/// `e⁰` is exactly one.
pub proof fn lemma_exp_of_zero()
    ensures
        fx_exp(0) == ONE,
{
    lemma_exp_partial_of_zero(EXP_TERMS as nat);
}

/// `eˣ` is never negative, and for `x ≤ 0` it does not exceed one.
pub proof fn lemma_exp_bounds(x: int)
    ensures
        0 <= fx_exp(x) <= i64::MAX,
        x <= 0 ==> fx_exp(x) <= ONE,
        x >= 0 ==> fx_exp(x) >= ONE,
{
    if x >= 0 {
        lemma_exp_partial_at_least_one(x as nat, EXP_TERMS as nat);
        if x == 0 {
            lemma_exp_of_zero();
        }
    } else {
        let g = exp_growth((-x) as nat);
        lemma_exp_partial_at_least_one((-x) as nat, EXP_TERMS as nat);
        assert(ONE <= g <= i64::MAX);
        assert(0 <= (ONE * ONE) / g <= ONE) by (nonlinear_arith)
            requires
                ONE <= g,
        ;
    }
}

/// A signed decimal number with nine fractional digits, stored as a count of
/// billionths.
#[derive(Clone, Copy, Debug, PartialEq, Eq, Structural, PartialOrd, Ord, Hash)]
pub struct Fixed {
    pub raw: i64,
}

impl View for Fixed {
    type V = int;

    /// The raw count of billionths.
    open spec fn view(&self) -> int {
        self.raw as int
    }
}

/// `v` clamped into an `i64`.
fn clamp(v: i128) -> (r: i64)
    ensures
        r == saturate(v as int),
{
    if v < i64::MIN as i128 {
        i64::MIN
    } else if v > i64::MAX as i128 {
        i64::MAX
    } else {
        v as i64
    }
}

/// `e` raised to the non-negative power that `y` stands for.
fn growth(y: u64) -> (r: i64)
    ensures
        r == exp_growth(y as nat),
{
    let mut term: u128 = ONE as u128;
    let mut sum: u128 = ONE as u128;
    let mut i: u64 = 1;
    assert(exp_partial(y as nat, 1) == exp_partial(y as nat, 0) + exp_term(y as nat, 0));
    while i < EXP_TERMS
        invariant
            1 <= i <= EXP_TERMS,
            term == exp_term(y as nat, (i - 1) as nat),
            sum == exp_partial(y as nat, i as nat),
            term <= sum <= i64::MAX,
        decreases EXP_TERMS - i,
    {
        assert(term * y <= 0x7fff_ffff_ffff_ffff_ffff_ffff_ffff_ffff) by (nonlinear_arith)
            requires
                term <= i64::MAX,
                y <= u64::MAX,
        ;
        let next: u128 = (term * (y as u128)) / ((i as u128) * (ONE as u128));
        assert(next <= term * y) by (nonlinear_arith)
            requires
                next == (term * y) / (i * ONE),
                i >= 1,
        ;
        assert(next == exp_term(y as nat, i as nat));
        let total: u128 = sum + next;
        assert(total == exp_partial(y as nat, (i + 1) as nat));
        if total > i64::MAX as u128 {
            proof {
                lemma_exp_partial_monotone(y as nat, (i + 1) as nat, EXP_TERMS as nat);
            }
            return i64::MAX;
        }
        term = next;
        sum = total;
        i = i + 1;
    }
    sum as i64
}

impl Fixed {
    /// The number zero.
    pub fn zero() -> (r: Fixed)
        ensures
            r@ == 0,
    {
        Fixed { raw: 0 }
    }

    /// The number one.
    pub fn one() -> (r: Fixed)
        ensures
            r@ == ONE,
    {
        Fixed { raw: ONE }
    }

    /// The number that `raw` billionths stand for.
    pub fn from_raw(raw: i64) -> (r: Fixed)
        ensures
            r@ == raw,
    {
        Fixed { raw }
    }

    /// The whole number `n`.
    pub fn from_int(n: i64) -> (r: Fixed)
        ensures
            r@ == fx_scale(ONE as int, n as int),
    {
        Fixed::one().saturating_mul_int(n)
    }

    /// The fraction `num / den`.
    pub fn from_ratio(num: u64, den: u64) -> (r: Fixed)
        requires
            den > 0,
        ensures
            r@ == fx_ratio(num as int, den as int),
    {
        assert(0 <= num * ONE <= 0x4000_0000_0000_0000_0000_0000_0000_0000) by (nonlinear_arith);
        let scaled: i128 = (num as i128) * (ONE as i128);
        Fixed { raw: clamp(scaled / (den as i128)) }
    }

    pub fn saturating_add(self, rhs: Fixed) -> (r: Fixed)
        ensures
            r@ == fx_add(self@, rhs@),
    {
        Fixed { raw: clamp((self.raw as i128) + (rhs.raw as i128)) }
    }

    pub fn saturating_sub(self, rhs: Fixed) -> (r: Fixed)
        ensures
            r@ == fx_sub(self@, rhs@),
    {
        Fixed { raw: clamp((self.raw as i128) - (rhs.raw as i128)) }
    }

    pub fn saturating_neg(self) -> (r: Fixed)
        ensures
            r@ == fx_neg(self@),
    {
        Fixed { raw: clamp(-(self.raw as i128)) }
    }

    /// The product, cut off toward zero to a whole count of billionths.
    pub fn saturating_mul(self, rhs: Fixed) -> (r: Fixed)
        ensures
            r@ == fx_mul(self@, rhs@),
    {
        assert(-0x4000_0000_0000_0000_0000_0000_0000_0000 <= self.raw * rhs.raw
            <= 0x4000_0000_0000_0000_0000_0000_0000_0000) by (nonlinear_arith);
        let wide: i128 = (self.raw as i128) * (rhs.raw as i128);
        Fixed { raw: clamp(wide / (ONE as i128)) }
    }

    /// This number taken `n` times.
    pub fn saturating_mul_int(self, n: i64) -> (r: Fixed)
        ensures
            r@ == fx_scale(self@, n as int),
    {
        self.scaled(n as i128)
    }

    /// This number taken `n` times, for a count that may lie a little outside
    /// of `i64`.
    pub(crate) fn scaled(self, n: i128) -> (r: Fixed)
        requires
            -0x8000_0000_0000_0100 <= n <= 0x8000_0000_0000_0100,
        ensures
            r@ == fx_scale(self@, n as int),
    {
        assert(-0x7000_0000_0000_0000_0000_0000_0000_0000 <= self.raw * n
            <= 0x7000_0000_0000_0000_0000_0000_0000_0000) by (nonlinear_arith)
            requires
                -0x8000_0000_0000_0100 <= n <= 0x8000_0000_0000_0100,
        ;
        Fixed { raw: clamp((self.raw as i128) * n) }
    }

    /// The quotient by a non-zero number, cut off toward zero.
    pub fn saturating_div(self, rhs: Fixed) -> (r: Fixed)
        requires
            rhs@ != 0,
        ensures
            r@ == fx_div(self@, rhs@),
    {
        assert(-0x4000_0000_0000_0000_0000_0000_0000_0000 <= self.raw * ONE
            <= 0x4000_0000_0000_0000_0000_0000_0000_0000) by (nonlinear_arith);
        let scaled: i128 = (self.raw as i128) * (ONE as i128);
        if rhs.raw > 0 {
            Fixed { raw: clamp(scaled / (rhs.raw as i128)) }
        } else {
            Fixed { raw: clamp((-scaled) / (-(rhs.raw as i128))) }
        }
    }

    /// `e` raised to this number.
    pub fn exp(self) -> (r: Fixed)
        ensures
            r@ == fx_exp(self@),
    {
        if self.raw >= 0 {
            Fixed { raw: growth(self.raw as u64) }
        } else {
            let power: u64 = (-(self.raw as i128)) as u64;
            let whole: i64 = growth(power);
            proof {
                lemma_exp_partial_at_least_one(power as nat, EXP_TERMS as nat);
            }
            let unit: i128 = (ONE as i128) * (ONE as i128);
            assert(0 <= unit / (whole as i128) <= ONE) by (nonlinear_arith)
                requires
                    unit == ONE * ONE,
                    whole >= ONE,
            ;
            Fixed { raw: (unit / (whole as i128)) as i64 }
        }
    }

    /// The larger of the two numbers.
    pub fn max(self, other: Fixed) -> (r: Fixed)
        ensures
            r@ == fx_max(self@, other@),
    {
        if self.raw >= other.raw {
            self
        } else {
            other
        }
    }

    /// The smaller of the two numbers.
    pub fn min(self, other: Fixed) -> (r: Fixed)
        ensures
            r@ == fx_min(self@, other@),
    {
        if self.raw <= other.raw {
            self
        } else {
            other
        }
    }
}

} // verus!

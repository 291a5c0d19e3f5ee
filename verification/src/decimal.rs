//! Exact decimal amounts: a signed mantissa of at most 96 bits and a count
//! of fractional digits, as `rust_decimal` holds them. The arithmetic is
//! that of `rust_decimal`.

use rust_decimal::Decimal;
use vstd::prelude::*;

use crate::fixed::{quotient, saturate, Fixed, ONE};

verus! {

/// The largest mantissa, `2^96 - 1`.
pub const MAX_MANTISSA: i128 = 79_228_162_514_264_337_593_543_950_335;

/// The largest count of fractional digits.
pub const MAX_SCALE: u32 = 28;

/// The amount `mantissa / 10^scale`.
#[derive(Clone, Copy, Debug, PartialEq, Eq, Structural, Hash)]
pub struct Amount {
    pub mantissa: i128,
    pub scale: u32,
}

/// `10^n`.
pub open spec fn pow10(n: nat) -> nat
    decreases n,
{
    if n == 0 {
        1
    } else {
        10 * pow10((n - 1) as nat)
    }
}

/// The sum that `Decimal::checked_add` gives for two amounts: `None` where
/// it overflows, and rounded where the exact sum needs more digits than an
/// amount holds.
pub uninterp spec fn decimal_sum(a: Amount, b: Amount) -> Option<Amount>;

/// The product that `Decimal::checked_mul` gives for two amounts: `None`
/// where it overflows, and rounded where the exact product needs more digits
/// than an amount holds.
pub uninterp spec fn decimal_product(a: Amount, b: Amount) -> Option<Amount>;

impl Amount {
    /// Mantissa and scale are in the range of `rust_decimal`.
    pub open spec fn wf(self) -> bool {
        &&& -MAX_MANTISSA <= self.mantissa <= MAX_MANTISSA
        &&& self.scale <= MAX_SCALE
    }

    /// The number that `self` stands for is greater than the one that
    /// `other` stands for.
    pub open spec fn exceeds(self, other: Amount) -> bool {
        self.mantissa * pow10(other.scale as nat) > other.mantissa * pow10(self.scale as nat)
    }

    /// The smaller of the numbers that two amounts stand for, as an amount:
    /// `other` where `self` is the greater one, else `self`.
    pub open spec fn spec_min(self, other: Amount) -> Amount {
        if self.exceeds(other) {
            other
        } else {
            self
        }
    }

    /// The raw count of billionths of the number that `self` stands for, cut
    /// off toward zero and clamped.
    pub open spec fn billionths(self) -> int {
        saturate(quotient(self.mantissa * ONE, pow10(self.scale as nat) as int))
    }

    /// The amount `num / 10^scale`.
    pub fn new(num: i64, scale: u32) -> (r: Amount)
        requires
            scale <= MAX_SCALE,
        ensures
            r == (Amount { mantissa: num as i128, scale }),
            r.wf(),
    {
        Amount { mantissa: num as i128, scale }
    }

    /// The amount with the given parts, if they are in range.
    pub fn from_parts(mantissa: i128, scale: u32) -> (r: Option<Amount>)
        ensures
            r == if (Amount { mantissa, scale }).wf() {
                Some(Amount { mantissa, scale })
            } else {
                None
            },
    {
        if -MAX_MANTISSA <= mantissa && mantissa <= MAX_MANTISSA && scale <= MAX_SCALE {
            Some(Amount { mantissa, scale })
        } else {
            None
        }
    }

    /// The smaller of two amounts by the numbers they stand for.
    pub fn min(self, other: Amount) -> (r: Amount)
        requires
            self.wf(),
            other.wf(),
        ensures
            r == self.spec_min(other),
            r.wf(),
    {
        decimal_min(self, other)
    }

    /// The sum of two amounts, `None` on overflow.
    pub fn checked_add(self, other: Amount) -> (r: Option<Amount>)
        requires
            self.wf(),
            other.wf(),
        ensures
            r == decimal_sum(self, other),
            r matches Some(sum) ==> sum.wf(),
    {
        decimal_checked_add(self, other)
    }

    /// The product of two amounts, `None` on overflow.
    pub fn checked_mul(self, other: Amount) -> (r: Option<Amount>)
        requires
            self.wf(),
            other.wf(),
        ensures
            r == decimal_product(self, other),
            r matches Some(product) ==> product.wf(),
    {
        decimal_checked_mul(self, other)
    }

    /// This amount as a fixed-point number of nine fractional digits.
    pub fn to_fixed(self) -> (r: Fixed)
        requires
            self.wf(),
        ensures
            r@ == self.billionths(),
    {
        let mut divisor: i128 = 1;
        let mut i: u32 = 0;
        while i < self.scale
            invariant
                i <= self.scale <= MAX_SCALE,
                divisor == pow10(i as nat),
                1 <= divisor <= 10_000_000_000_000_000_000_000_000_000,
                i < MAX_SCALE ==> divisor <= 1_000_000_000_000_000_000_000_000_000,
            decreases self.scale - i,
        {
            proof {
                lemma_pow10_bound((i + 1) as nat);
            }
            divisor = divisor * 10;
            i = i + 1;
        }
        assert(-79_228_162_514_264_337_593_543_950_335_000_000_000 <= self.mantissa * ONE
            <= 79_228_162_514_264_337_593_543_950_335_000_000_000) by (nonlinear_arith)
            requires
                -MAX_MANTISSA <= self.mantissa <= MAX_MANTISSA,
        ;
        let scaled: i128 = self.mantissa * (ONE as i128);
        let whole: i128 = scaled / divisor;
        if whole < i64::MIN as i128 {
            Fixed::from_raw(i64::MIN)
        } else if whole > i64::MAX as i128 {
            Fixed::from_raw(i64::MAX)
        } else {
            Fixed::from_raw(whole as i64)
        }
    }
}

/// Powers of ten up to the largest scale stay below `10^28`, and each below
/// it below `10^27`.
pub proof fn lemma_pow10_bound(n: nat)
    requires
        n <= MAX_SCALE,
    ensures
        1 <= pow10(n) <= 10_000_000_000_000_000_000_000_000_000,
        n < MAX_SCALE ==> pow10(n) <= 1_000_000_000_000_000_000_000_000_000,
{
    reveal_with_fuel(pow10, 30);
}

/// Calls `Decimal::min`. It returns its second argument where the first is
/// greater by `Decimal`'s order, which is the order of the numbers that the
/// decimals stand for, and else its first.
#[verifier::external_body]
fn decimal_min(a: Amount, b: Amount) -> (r: Amount)
    requires
        a.wf(),
        b.wf(),
    ensures
        r == a.spec_min(b),
{
    let x = Decimal::from_i128_with_scale(a.mantissa, a.scale);
    let y = Decimal::from_i128_with_scale(b.mantissa, b.scale);
    let m = x.min(y);
    Amount { mantissa: m.mantissa(), scale: m.scale() }
}

/// Calls `Decimal::checked_add`. Its result is a function of the two
/// decimals alone, and any decimal it returns is within range.
#[verifier::external_body]
fn decimal_checked_add(a: Amount, b: Amount) -> (r: Option<Amount>)
    requires
        a.wf(),
        b.wf(),
    ensures
        r == decimal_sum(a, b),
        r matches Some(sum) ==> sum.wf(),
{
    let x = Decimal::from_i128_with_scale(a.mantissa, a.scale);
    let y = Decimal::from_i128_with_scale(b.mantissa, b.scale);
    match x.checked_add(y) {
        Some(s) => Some(Amount { mantissa: s.mantissa(), scale: s.scale() }),
        None => None,
    }
}

/// Calls `Decimal::checked_mul`. Its result is a function of the two
/// decimals alone, and any decimal it returns is within range.
#[verifier::external_body]
fn decimal_checked_mul(a: Amount, b: Amount) -> (r: Option<Amount>)
    requires
        a.wf(),
        b.wf(),
    ensures
        r == decimal_product(a, b),
        r matches Some(product) ==> product.wf(),
{
    let x = Decimal::from_i128_with_scale(a.mantissa, a.scale);
    let y = Decimal::from_i128_with_scale(b.mantissa, b.scale);
    match x.checked_mul(y) {
        Some(p) => Some(Amount { mantissa: p.mantissa(), scale: p.scale() }),
        None => None,
    }
}

} // verus!

//! Monetary amounts.
//!
//! An `Amount` holds the two plain values that make up a `rust_decimal::Decimal`:
//! a signed mantissa of at most 96 bits and a decimal scale of at most 28.
//! Its value is `mantissa * 10^-scale`. Arithmetic and comparison are done by
//! `rust_decimal` itself, through the trusted functions at the end of this file.
use vstd::prelude::*;
use vstd::std_specs::cmp::PartialEqSpecImpl;
use rust_decimal::Decimal;

verus! {

/// The largest magnitude of a decimal mantissa: `2^96 - 1`.
pub const MAX_MANTISSA: i128 = 79228162514264337593543950335;

/// The largest decimal scale.
pub const MAX_SCALE: u32 = 28;

/// `10^n`.
pub open spec fn pow10(n: nat) -> int
    decreases n,
{
    if n == 0 {
        1
    } else {
        10 * pow10((n - 1) as nat)
    }
}

/// Whether a mantissa and a scale form a decimal.
pub open spec fn valid_parts(mantissa: int, scale: int) -> bool {
    &&& 0 <= scale <= MAX_SCALE
    &&& -MAX_MANTISSA <= mantissa <= MAX_MANTISSA
}

/// The value of `mantissa * 10^-scale`, counted in units of `10^-28`.
///
/// Every decimal value is a whole number of such units, so values can be
/// compared and added as integers.
pub open spec fn value_of(mantissa: int, scale: int) -> int {
    mantissa * pow10((MAX_SCALE - scale) as nat)
}

/// The mantissa that the value `mantissa * 10^-scale` has at scale `target`
/// (for `scale <= target`).
pub open spec fn aligned(mantissa: int, scale: int, target: int) -> int {
    mantissa * pow10((target - scale) as nat)
}

/// Whether a mantissa fits in 96 bits.
pub open spec fn fits(mantissa: int) -> bool {
    -MAX_MANTISSA <= mantissa <= MAX_MANTISSA
}

pub open spec fn larger_scale(a_scale: int, b_scale: int) -> int {
    if a_scale < b_scale {
        b_scale
    } else {
        a_scale
    }
}

/// Whether `a + b` (or `a - b`, with `subtract`) can be formed without rounding:
/// both scales are decimal scales, both operands, brought to the larger of the
/// two scales, fit in 96 bits, and so does their sum (or difference).
pub open spec fn exact_parts(
    a_mantissa: int,
    a_scale: int,
    b_mantissa: int,
    b_scale: int,
    subtract: bool,
) -> bool {
    let s = larger_scale(a_scale, b_scale);
    let a = aligned(a_mantissa, a_scale, s);
    let b = aligned(b_mantissa, b_scale, s);
    &&& 0 <= a_scale <= MAX_SCALE
    &&& 0 <= b_scale <= MAX_SCALE
    &&& fits(a)
    &&& fits(b)
    &&& if subtract {
        fits(a - b)
    } else {
        fits(a + b)
    }
}

/// The mantissa and scale of `a + b` (or `a - b`, with `subtract`) where no
/// rounding is needed: an operand of zero gives the other operand back (negated
/// for `0 - b`); otherwise the exact sum (or difference) at the larger scale.
pub open spec fn exact_result(
    a_mantissa: int,
    a_scale: int,
    b_mantissa: int,
    b_scale: int,
    subtract: bool,
) -> (int, int) {
    if a_mantissa == 0 {
        (if subtract { -b_mantissa } else { b_mantissa }, b_scale)
    } else if b_mantissa == 0 {
        (a_mantissa, a_scale)
    } else {
        let s = larger_scale(a_scale, b_scale);
        let a = aligned(a_mantissa, a_scale, s);
        let b = aligned(b_mantissa, b_scale, s);
        (if subtract { a - b } else { a + b }, s)
    }
}

/// Whether `r` holds the mantissa and scale `parts`.
pub open spec fn holds_parts(r: Option<(i128, u32)>, parts: (int, int)) -> bool {
    r matches Some((m, s)) && m as int == parts.0 && s as int == parts.1
}

/// `10^(x + y) == 10^x * 10^y`.
pub proof fn lemma_pow10_add(x: nat, y: nat)
    ensures
        pow10(x + y) == pow10(x) * pow10(y),
    decreases x,
{
    if x > 0 {
        lemma_pow10_add((x - 1) as nat, y);
        assert(pow10(x + y) == 10 * pow10((x - 1 + y) as nat));
        let p = pow10((x - 1) as nat);
        let q = pow10(y);
        assert(10 * (p * q) == (10 * p) * q) by (nonlinear_arith);
    }
}

/// `10^n` is at least one.
pub proof fn lemma_pow10_positive(n: nat)
    ensures
        pow10(n) >= 1,
    decreases n,
{
    if n > 0 {
        lemma_pow10_positive((n - 1) as nat);
    }
}

/// Bringing a mantissa to a larger scale never shrinks its magnitude.
pub proof fn lemma_aligned_not_smaller(mantissa: int, scale: int, target: int)
    requires
        scale <= target,
    ensures
        fits(aligned(mantissa, scale, target)) ==> fits(mantissa),
{
    let p = pow10((target - scale) as nat);
    lemma_pow10_positive((target - scale) as nat);
    if mantissa >= 0 {
        assert(mantissa * p >= mantissa) by (nonlinear_arith)
            requires
                mantissa >= 0,
                p >= 1,
        ;
    } else {
        assert(mantissa * p <= mantissa) by (nonlinear_arith)
            requires
                mantissa < 0,
                p >= 1,
        ;
    }
}

/// The value of `exact_result` is the exact sum (or difference) of the values.
pub proof fn lemma_exact_result_value(
    a_mantissa: int,
    a_scale: int,
    b_mantissa: int,
    b_scale: int,
    subtract: bool,
)
    requires
        0 <= a_scale <= MAX_SCALE,
        0 <= b_scale <= MAX_SCALE,
    ensures
        ({
            let r = exact_result(a_mantissa, a_scale, b_mantissa, b_scale, subtract);
            value_of(r.0, r.1) == if subtract {
                value_of(a_mantissa, a_scale) - value_of(b_mantissa, b_scale)
            } else {
                value_of(a_mantissa, a_scale) + value_of(b_mantissa, b_scale)
            }
        }),
{
    let pa = pow10((MAX_SCALE - a_scale) as nat);
    let pb = pow10((MAX_SCALE - b_scale) as nat);
    if a_mantissa == 0 {
        assert(0 * pa == 0);
        assert((-b_mantissa) * pb == -(b_mantissa * pb)) by (nonlinear_arith);
    } else if b_mantissa == 0 {
        assert(0 * pb == 0);
    } else {
        let s = larger_scale(a_scale, b_scale);
        let p = pow10((MAX_SCALE - s) as nat);
        let x = pow10((s - a_scale) as nat);
        let y = pow10((s - b_scale) as nat);
        lemma_pow10_add((s - a_scale) as nat, (MAX_SCALE - s) as nat);
        lemma_pow10_add((s - b_scale) as nat, (MAX_SCALE - s) as nat);
        assert(pa == x * p);
        assert(pb == y * p);
        assert((a_mantissa * x + b_mantissa * y) * p == a_mantissa * (x * p) + b_mantissa * (y * p))
            by (nonlinear_arith);
        assert((a_mantissa * x - b_mantissa * y) * p == a_mantissa * (x * p) - b_mantissa * (y * p))
            by (nonlinear_arith);
    }
}

/// What `Decimal::checked_add` returns for the decimals with these parts, as
/// the mantissa and scale of the sum.
pub uninterp spec fn decimal_checked_add(
    a_mantissa: i128,
    a_scale: u32,
    b_mantissa: i128,
    b_scale: u32,
) -> Option<(i128, u32)>;

/// What `Decimal::checked_sub` returns for the decimals with these parts, as
/// the mantissa and scale of the difference.
pub uninterp spec fn decimal_checked_sub(
    a_mantissa: i128,
    a_scale: u32,
    b_mantissa: i128,
    b_scale: u32,
) -> Option<(i128, u32)>;

/// A decimal amount of money.
#[derive(Clone, Copy, Debug)]
pub struct Amount {
    mantissa: i128,
    scale: u32,
}

impl View for Amount {
    type V = int;

    /// The value of the amount, in units of `10^-28`.
    open spec fn view(&self) -> int {
        value_of(self.spec_mantissa() as int, self.spec_scale() as int)
    }
}

impl Amount {
    #[verifier::type_invariant]
    spec fn well_formed(self) -> bool {
        valid_parts(self.mantissa as int, self.scale as int)
    }

    pub closed spec fn spec_mantissa(self) -> i128 {
        self.mantissa
    }

    pub closed spec fn spec_scale(self) -> u32 {
        self.scale
    }

    /// The amount zero, at scale 0.
    pub closed spec fn spec_zero() -> Amount {
        Amount { mantissa: 0, scale: 0 }
    }

    /// The amount with the given parts.
    closed spec fn with_parts(parts: (int, int)) -> Amount {
        Amount { mantissa: parts.0 as i128, scale: parts.1 as u32 }
    }

    /// The sum that `rust_decimal` computes, or `None` where it overflows: the
    /// exact sum where no rounding is needed, otherwise `decimal_checked_add`.
    pub closed spec fn plus(self, other: Amount) -> Option<Amount> {
        if self.sum_is_exact(other) {
            Some(
                Amount::with_parts(
                    exact_result(
                        self.mantissa as int,
                        self.scale as int,
                        other.mantissa as int,
                        other.scale as int,
                        false,
                    ),
                ),
            )
        } else {
            match decimal_checked_add(self.mantissa, self.scale, other.mantissa, other.scale) {
                Some((m, s)) => Some(Amount { mantissa: m, scale: s }),
                None => None,
            }
        }
    }

    /// The difference that `rust_decimal` computes, or `None` where it overflows:
    /// the exact difference where no rounding is needed, otherwise
    /// `decimal_checked_sub`.
    pub closed spec fn minus(self, other: Amount) -> Option<Amount> {
        if self.difference_is_exact(other) {
            Some(
                Amount::with_parts(
                    exact_result(
                        self.mantissa as int,
                        self.scale as int,
                        other.mantissa as int,
                        other.scale as int,
                        true,
                    ),
                ),
            )
        } else {
            match decimal_checked_sub(self.mantissa, self.scale, other.mantissa, other.scale) {
                Some((m, s)) => Some(Amount { mantissa: m, scale: s }),
                None => None,
            }
        }
    }

    /// Whether `self + other` is formed without rounding.
    pub open spec fn sum_is_exact(self, other: Amount) -> bool {
        exact_parts(
            self.spec_mantissa() as int,
            self.spec_scale() as int,
            other.spec_mantissa() as int,
            other.spec_scale() as int,
            false,
        )
    }

    /// Whether `self - other` is formed without rounding.
    pub open spec fn difference_is_exact(self, other: Amount) -> bool {
        exact_parts(
            self.spec_mantissa() as int,
            self.spec_scale() as int,
            other.spec_mantissa() as int,
            other.spec_scale() as int,
            true,
        )
    }

    /// The amount `num * 10^-scale`, as `Decimal::new` builds it.
    pub fn new(num: i64, scale: u32) -> (r: Amount)
        requires
            scale <= MAX_SCALE,
        ensures
            r.spec_mantissa() == num as i128,
            r.spec_scale() == scale,
            r@ == value_of(num as int, scale as int),
    {
        Amount { mantissa: num as i128, scale }
    }

    /// The amount `num * 10^-scale`, as `Decimal::from_i128_with_scale` builds it.
    pub fn from_i128_with_scale(num: i128, scale: u32) -> (r: Amount)
        requires
            valid_parts(num as int, scale as int),
        ensures
            r.spec_mantissa() == num,
            r.spec_scale() == scale,
            r@ == value_of(num as int, scale as int),
    {
        Amount { mantissa: num, scale }
    }

    /// The amount zero.
    pub fn zero() -> (r: Amount)
        ensures
            r == Amount::spec_zero(),
            r@ == 0,
    {
        Amount { mantissa: 0, scale: 0 }
    }

    pub fn mantissa(&self) -> (r: i128)
        ensures
            r == self.spec_mantissa(),
            fits(r as int),
    {
        proof {
            use_type_invariant(self);
        }
        self.mantissa
    }

    pub fn scale(&self) -> (r: u32)
        ensures
            r == self.spec_scale(),
            r <= MAX_SCALE,
    {
        proof {
            use_type_invariant(self);
        }
        self.scale
    }

    /// `self + other`, or `None` where the sum overflows.
    pub fn checked_add(self, other: Amount) -> (r: Option<Amount>)
        ensures
            r == self.plus(other),
            self.sum_is_exact(other) ==> (r is Some && r.unwrap()@ == self@ + other@),
    {
        proof {
            use_type_invariant(self);
            use_type_invariant(other);
        }
        proof {
            lemma_exact_result_value(
                self.mantissa as int,
                self.scale as int,
                other.mantissa as int,
                other.scale as int,
                false,
            );
        }
        match decimal_add(self.mantissa, self.scale, other.mantissa, other.scale) {
            Some((m, s)) => Some(Amount { mantissa: m, scale: s }),
            None => None,
        }
    }

    /// `self - other`, or `None` where the difference overflows.
    pub fn checked_sub(self, other: Amount) -> (r: Option<Amount>)
        ensures
            r == self.minus(other),
            self.difference_is_exact(other) ==> (r is Some && r.unwrap()@ == self@ - other@),
    {
        proof {
            use_type_invariant(self);
            use_type_invariant(other);
        }
        proof {
            lemma_exact_result_value(
                self.mantissa as int,
                self.scale as int,
                other.mantissa as int,
                other.scale as int,
                true,
            );
        }
        match decimal_sub(self.mantissa, self.scale, other.mantissa, other.scale) {
            Some((m, s)) => Some(Amount { mantissa: m, scale: s }),
            None => None,
        }
    }

    /// Whether the amount is below zero.
    pub fn is_negative(&self) -> (r: bool)
        ensures
            r == (self@ < 0),
    {
        proof {
            use_type_invariant(self);
        }
        decimal_less_than(self.mantissa, self.scale, 0, 0)
    }

    /// Where no rounding is needed, the sum is formed, has the parts of
    /// `exact_result`, and its value is the sum of the values.
    pub proof fn lemma_plus_when_exact(self, other: Amount)
        requires
            self.sum_is_exact(other),
        ensures
            self.plus(other) is Some,
            self.plus(other).unwrap()@ == self@ + other@,
            self.plus(other).unwrap().spec_mantissa() as int == exact_result(
                self.spec_mantissa() as int,
                self.spec_scale() as int,
                other.spec_mantissa() as int,
                other.spec_scale() as int,
                false,
            ).0,
            self.plus(other).unwrap().spec_scale() as int == exact_result(
                self.spec_mantissa() as int,
                self.spec_scale() as int,
                other.spec_mantissa() as int,
                other.spec_scale() as int,
                false,
            ).1,
    {
        lemma_exact_result_value(
            self.mantissa as int,
            self.scale as int,
            other.mantissa as int,
            other.scale as int,
            false,
        );
    }

    /// Where no rounding is needed, the difference is formed, has the parts of
    /// `exact_result`, and its value is the difference of the values.
    pub proof fn lemma_minus_when_exact(self, other: Amount)
        requires
            self.difference_is_exact(other),
        ensures
            self.minus(other) is Some,
            self.minus(other).unwrap()@ == self@ - other@,
            self.minus(other).unwrap().spec_mantissa() as int == exact_result(
                self.spec_mantissa() as int,
                self.spec_scale() as int,
                other.spec_mantissa() as int,
                other.spec_scale() as int,
                true,
            ).0,
            self.minus(other).unwrap().spec_scale() as int == exact_result(
                self.spec_mantissa() as int,
                self.spec_scale() as int,
                other.spec_mantissa() as int,
                other.spec_scale() as int,
                true,
            ).1,
    {
        lemma_aligned_not_smaller(
            other.spec_mantissa() as int,
            other.spec_scale() as int,
            larger_scale(self.spec_scale() as int, other.spec_scale() as int),
        );
        lemma_exact_result_value(
            self.mantissa as int,
            self.scale as int,
            other.mantissa as int,
            other.scale as int,
            true,
        );
    }

    /// Zero has mantissa zero at scale zero, and so the value zero.
    pub proof fn lemma_zero_value()
        ensures
            Amount::spec_zero().spec_mantissa() == 0,
            Amount::spec_zero().spec_scale() == 0,
            Amount::spec_zero()@ == 0,
    {
    }
}

impl PartialEq for Amount {
    /// Two amounts are equal when their values are, whatever their scales.
    fn eq(&self, other: &Amount) -> (r: bool) {
        proof {
            use_type_invariant(self);
            use_type_invariant(other);
        }
        decimal_equal(self.mantissa, self.scale, other.mantissa, other.scale)
    }
}

impl PartialEqSpecImpl for Amount {
    open spec fn obeys_eq_spec() -> bool {
        true
    }

    open spec fn eq_spec(&self, other: &Amount) -> bool {
        self@ == other@
    }
}

/// Calls `Decimal::checked_add` on the decimals with these parts.
///
/// Claims: the result is the named `decimal_checked_add`; a sum that is returned
/// is a decimal; and where both operands, brought to the larger scale, and their
/// sum fit in 96 bits, the sum is returned with the parts of `exact_result`: the
/// other operand where one is zero, else the exact sum at the larger scale. Left
/// unsaid: which sum is returned where rounding is needed, and where `None` comes.
#[verifier::external_body]
fn decimal_add(a_mantissa: i128, a_scale: u32, b_mantissa: i128, b_scale: u32) -> (r: Option<(i128, u32)>)
    requires
        valid_parts(a_mantissa as int, a_scale as int),
        valid_parts(b_mantissa as int, b_scale as int),
    ensures
        r == decimal_checked_add(a_mantissa, a_scale, b_mantissa, b_scale),
        r matches Some((m, s)) ==> valid_parts(m as int, s as int),
        exact_parts(a_mantissa as int, a_scale as int, b_mantissa as int, b_scale as int, false) ==> holds_parts(r, exact_result(a_mantissa as int, a_scale as int, b_mantissa as int, b_scale as int, false)),
{
    let a = Decimal::from_i128_with_scale(a_mantissa, a_scale);
    let b = Decimal::from_i128_with_scale(b_mantissa, b_scale);
    match a.checked_add(b) {
        Some(sum) => Some((sum.mantissa(), sum.scale())),
        None => None,
    }
}

/// Calls `Decimal::checked_sub` on the decimals with these parts.
///
/// Claims: the result is the named `decimal_checked_sub`; a difference that is
/// returned is a decimal; and where both operands, brought to the larger scale,
/// and their difference fit in 96 bits, the difference is returned with the parts
/// of `exact_result`: the first operand where the second is zero, the negated
/// second where the first is zero, else the exact difference at the larger scale.
/// Left unsaid: which difference is returned where rounding is needed, and where
/// `None` comes.
#[verifier::external_body]
fn decimal_sub(a_mantissa: i128, a_scale: u32, b_mantissa: i128, b_scale: u32) -> (r: Option<(i128, u32)>)
    requires
        valid_parts(a_mantissa as int, a_scale as int),
        valid_parts(b_mantissa as int, b_scale as int),
    ensures
        r == decimal_checked_sub(a_mantissa, a_scale, b_mantissa, b_scale),
        r matches Some((m, s)) ==> valid_parts(m as int, s as int),
        exact_parts(a_mantissa as int, a_scale as int, b_mantissa as int, b_scale as int, true) ==> holds_parts(r, exact_result(a_mantissa as int, a_scale as int, b_mantissa as int, b_scale as int, true)),
{
    let a = Decimal::from_i128_with_scale(a_mantissa, a_scale);
    let b = Decimal::from_i128_with_scale(b_mantissa, b_scale);
    match a.checked_sub(b) {
        Some(difference) => Some((difference.mantissa(), difference.scale())),
        None => None,
    }
}

/// Calls `<` on the decimals with these parts. Claims that `Decimal` orders by
/// value: the result says whether the first value is below the second.
#[verifier::external_body]
fn decimal_less_than(a_mantissa: i128, a_scale: u32, b_mantissa: i128, b_scale: u32) -> (r: bool)
    requires
        valid_parts(a_mantissa as int, a_scale as int),
        valid_parts(b_mantissa as int, b_scale as int),
    ensures
        r == (value_of(a_mantissa as int, a_scale as int) < value_of(b_mantissa as int, b_scale as int)),
{
    Decimal::from_i128_with_scale(a_mantissa, a_scale) < Decimal::from_i128_with_scale(b_mantissa, b_scale)
}

/// Calls `==` on the decimals with these parts. Claims that `Decimal` compares by
/// value: the result says whether the two values are equal, whatever the scales.
#[verifier::external_body]
fn decimal_equal(a_mantissa: i128, a_scale: u32, b_mantissa: i128, b_scale: u32) -> (r: bool)
    requires
        valid_parts(a_mantissa as int, a_scale as int),
        valid_parts(b_mantissa as int, b_scale as int),
    ensures
        r == (value_of(a_mantissa as int, a_scale as int) == value_of(b_mantissa as int, b_scale as int)),
{
    Decimal::from_i128_with_scale(a_mantissa, a_scale) == Decimal::from_i128_with_scale(b_mantissa, b_scale)
}

} // verus!

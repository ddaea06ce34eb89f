//! Exact decimal amounts.
//!
//! An amount is a signed integer mantissa and a scale: the number of digits
//! behind the decimal point. The arithmetic itself is done by `rust_decimal`;
//! this module states what it returns.

use vstd::prelude::*;
use vstd::string::*;

verus! {

/// The largest mantissa: 96 bits, all set.
pub const MAX_MANTISSA: i128 = 79228162514264337593543950335i128;

/// The largest scale.
pub const MAX_SCALE: u32 = 28u32;

/// A decimal amount: `mantissa / 10^scale`.
#[derive(Debug, Clone, Copy, PartialEq, Eq, Structural)]
pub struct Money {
    pub mantissa: i128,
    pub scale: u32,
}

/// What `rust_decimal` returns for the sum of two amounts, each given by
/// mantissa and scale. `None` is an overflow. [`sum_of`] says what it is
/// wherever a short rule gives it; for long operands of different scales, and
/// for a sum that leaves 96 bits and is rounded to a smaller scale, only this
/// name stands for it.
pub uninterp spec fn decimal_sum(a_mantissa: i128, a_scale: u32, b_mantissa: i128, b_scale: u32) -> Option<(i128, u32)>;

/// What `rust_decimal` returns for the product of two amounts, each given by
/// mantissa and scale. `None` is an overflow. [`product_of`] says what it is
/// wherever a short rule gives it; for a product that leaves 96 bits or 28
/// digits of scale and is rounded, only this name stands for it.
pub uninterp spec fn decimal_product(a_mantissa: i128, a_scale: u32, b_mantissa: i128, b_scale: u32) -> Option<(i128, u32)>;

/// The character of one decimal digit.
pub open spec fn digit_char(d: nat) -> char {
    if d == 0 {
        '0'
    } else if d == 1 {
        '1'
    } else if d == 2 {
        '2'
    } else if d == 3 {
        '3'
    } else if d == 4 {
        '4'
    } else if d == 5 {
        '5'
    } else if d == 6 {
        '6'
    } else if d == 7 {
        '7'
    } else if d == 8 {
        '8'
    } else {
        '9'
    }
}

/// The decimal digits of a number, most significant first; zero has none.
pub open spec fn decimal_digits(n: nat) -> Seq<char>
    decreases n,
{
    if n == 0 {
        Seq::empty()
    } else {
        decimal_digits(n / 10).push(digit_char(n % 10))
    }
}

/// Digits with zeros in front of them, up to a length.
pub open spec fn zero_padded(digits: Seq<char>, len: nat) -> Seq<char> {
    if digits.len() >= len {
        digits
    } else {
        Seq::new((len - digits.len()) as nat, |i: int| '0') + digits
    }
}

/// An amount written out: a minus sign where the mantissa is negative, then
/// the digits of the mantissa with zeros in front up to one digit more than
/// the scale, and a point before the last `scale` digits where the scale is
/// not zero.
pub open spec fn decimal_text(mantissa: i128, scale: u32) -> Seq<char> {
    let magnitude = (if mantissa < 0 {
        -mantissa
    } else {
        mantissa as int
    }) as nat;
    let digits = zero_padded(decimal_digits(magnitude), (scale + 1) as nat);
    let whole = digits.len() - scale;
    let unsigned = if scale == 0 {
        digits
    } else {
        digits.subrange(0, whole) + seq!['.'] + digits.subrange(whole, digits.len() as int)
    };
    if mantissa < 0 {
        seq!['-'] + unsigned
    } else {
        unsigned
    }
}

pub open spec fn from_parts(p: Option<(i128, u32)>) -> Option<Money> {
    match p {
        Some(v) => Some(Money { mantissa: v.0, scale: v.1 }),
        None => None,
    }
}

pub open spec fn mantissa_in_range(m: int) -> bool {
    -MAX_MANTISSA <= m <= MAX_MANTISSA
}

/// The largest mantissa of 64 bits.
pub const MAX_SHORT_MANTISSA: i128 = 18446744073709551615i128;

/// The most digits by which the scales of two short operands may differ for
/// their sum to be stated.
pub const MAX_SCALE_STEP: u32 = 19u32;

/// Ten to the power of `n`.
pub open spec fn pow10(n: nat) -> nat
    decreases n,
{
    if n == 0 {
        1
    } else {
        10 * pow10((n - 1) as nat)
    }
}

pub open spec fn is_short(m: int) -> bool {
    -MAX_SHORT_MANTISSA <= m <= MAX_SHORT_MANTISSA
}

pub open spec fn larger_scale(a: Money, b: Money) -> u32 {
    if a.scale >= b.scale {
        a.scale
    } else {
        b.scale
    }
}

/// The mantissa that writes an amount at a scale that is not smaller than its
/// own.
pub open spec fn mantissa_at(a: Money, scale: nat) -> int
    recommends
        scale >= a.scale,
{
    a.mantissa * pow10((scale - a.scale) as nat)
}

/// Two amounts of different scales whose sum is an exact sum of integers: both
/// mantissas fit in 64 bits, the scales differ by 19 digits at most, and the
/// sum at the larger scale is in range.
pub open spec fn aligns(a: Money, b: Money) -> bool {
    let s = larger_scale(a, b) as nat;
    &&& is_short(a.mantissa as int)
    &&& is_short(b.mantissa as int)
    &&& s - a.scale <= MAX_SCALE_STEP
    &&& s - b.scale <= MAX_SCALE_STEP
    &&& mantissa_in_range(mantissa_at(a, s) + mantissa_at(b, s))
}

/// The sum of two amounts, given what the decimal arithmetic returns for
/// them. Adding zero gives the other operand as it is; two amounts of one
/// scale whose mantissas add up within range give that sum at that scale; two
/// amounts of different scales that align give their sum at the larger scale.
pub open spec fn sum_of(a: Money, b: Money, otherwise: Option<(i128, u32)>) -> Option<Money> {
    if a.mantissa == 0 {
        Some(b)
    } else if b.mantissa == 0 {
        Some(a)
    } else if a.scale == b.scale && mantissa_in_range(a.mantissa + b.mantissa) {
        Some(Money { mantissa: (a.mantissa + b.mantissa) as i128, scale: a.scale })
    } else if a.scale != b.scale && aligns(a, b) {
        Some(
            Money {
                mantissa: (mantissa_at(a, larger_scale(a, b) as nat) + mantissa_at(
                    b,
                    larger_scale(a, b) as nat,
                )) as i128,
                scale: larger_scale(a, b),
            },
        )
    } else {
        from_parts(otherwise)
    }
}

/// The product of two amounts, given what the decimal arithmetic returns for
/// them. A zero operand gives zero at scale 0; otherwise the mantissas are
/// multiplied and the scales added, where both stay in range.
pub open spec fn product_of(a: Money, b: Money, otherwise: Option<(i128, u32)>) -> Option<Money> {
    if a.mantissa == 0 || b.mantissa == 0 {
        Some(Money { mantissa: 0, scale: 0 })
    } else if a.scale + b.scale <= MAX_SCALE && mantissa_in_range(a.mantissa * b.mantissa) {
        Some(Money { mantissa: (a.mantissa * b.mantissa) as i128, scale: (a.scale + b.scale) as u32 })
    } else {
        from_parts(otherwise)
    }
}

/// The sum of two amounts.
pub open spec fn money_sum(a: Money, b: Money) -> Option<Money> {
    sum_of(a, b, decimal_sum(a.mantissa, a.scale, b.mantissa, b.scale))
}

/// The product of two amounts.
pub open spec fn money_product(a: Money, b: Money) -> Option<Money> {
    product_of(a, b, decimal_product(a.mantissa, a.scale, b.mantissa, b.scale))
}

impl Money {
    /// An amount is well formed when its mantissa fits in 96 bits and its
    /// scale is at most 28.
    pub open spec fn wf(self) -> bool {
        mantissa_in_range(self.mantissa as int) && self.scale <= MAX_SCALE
    }

    /// The amount `mantissa / 10^scale`, or `None` where it cannot be
    /// represented.
    pub fn new(mantissa: i128, scale: u32) -> (r: Option<Money>)
        ensures
            r is Some <==> (Money { mantissa, scale }).wf(),
            r is Some ==> r->0 == (Money { mantissa, scale }),
    {
        if scale <= MAX_SCALE && -MAX_MANTISSA <= mantissa && mantissa <= MAX_MANTISSA {
            Some(Money { mantissa, scale })
        } else {
            None
        }
    }

    /// Zero with two digits behind the point.
    pub fn zero() -> (r: Money)
        ensures
            r == zero_amount(),
            r.wf(),
    {
        Money { mantissa: 0, scale: 2 }
    }

    /// A whole number of credits as an amount.
    pub fn from_count(n: u8) -> (r: Money)
        ensures
            r == count_amount(n),
            r.wf(),
    {
        Money { mantissa: n as i128, scale: 0 }
    }

    pub fn is_well_formed(&self) -> (b: bool)
        ensures
            b == self.wf(),
    {
        self.scale <= MAX_SCALE && -MAX_MANTISSA <= self.mantissa && self.mantissa <= MAX_MANTISSA
    }

    /// The sum of two amounts, `None` on overflow.
    pub fn checked_add(self, other: Money) -> (r: Option<Money>)
        requires
            self.wf(),
            other.wf(),
        ensures
            r == money_sum(self, other),
            r is Some ==> r->0.wf(),
    {
        decimal_checked_add(self, other)
    }

    /// The product of two amounts, `None` on overflow.
    pub fn checked_mul(self, other: Money) -> (r: Option<Money>)
        requires
            self.wf(),
            other.wf(),
        ensures
            r == money_product(self, other),
            r is Some ==> r->0.wf(),
    {
        decimal_checked_mul(self, other)
    }

    /// The amount written out: the digits of the mantissa with the decimal
    /// point `scale` digits from the right.
    pub fn text(&self) -> (s: String)
        requires
            self.wf(),
        ensures
            s@ == decimal_text(self.mantissa, self.scale),
    {
        decimal_to_string(*self)
    }
}

pub open spec fn zero_amount() -> Money {
    Money { mantissa: 0, scale: 2 }
}

pub open spec fn count_amount(n: u8) -> Money {
    Money { mantissa: n as i128, scale: 0 }
}

/// `rust_decimal::Decimal::checked_add`, on amounts given by mantissa and
/// scale. The contract claims: the result is a function of the operands; a
/// zero left operand returns the right one and a zero right operand the left
/// one, unchanged; two non-zero operands of one scale whose mantissas add up
/// within 96 bits give that sum at that scale; two non-zero operands of
/// different scales, both of at most 64 bits and at most 19 digits apart,
/// whose sum at the larger scale is within 96 bits give that sum at the larger
/// scale; whatever is returned is a representable amount. Nothing more is
/// claimed of a result that had to be rounded, or aligned by another path.
#[verifier::external_body]
fn decimal_checked_add(a: Money, b: Money) -> (r: Option<Money>)
    requires
        a.wf(),
        b.wf(),
    ensures
        r == from_parts(decimal_sum(a.mantissa, a.scale, b.mantissa, b.scale)),
        r == sum_of(a, b, decimal_sum(a.mantissa, a.scale, b.mantissa, b.scale)),
        r is Some ==> r->0.wf(),
{
    let x = rust_decimal::Decimal::from_i128_with_scale(a.mantissa, a.scale);
    let y = rust_decimal::Decimal::from_i128_with_scale(b.mantissa, b.scale);
    match x.checked_add(y) {
        Some(d) => Some(Money { mantissa: d.mantissa(), scale: d.scale() }),
        None => None,
    }
}

/// `rust_decimal::Decimal::checked_mul`, on amounts given by mantissa and
/// scale. The contract claims: the result is a function of the operands; a
/// zero operand gives zero at scale 0; two non-zero operands whose scales add
/// up to at most 28 and whose mantissas multiply within 96 bits give that
/// product at the added scale; whatever is returned is a representable amount.
/// Nothing more is claimed of a result that had to be rounded.
#[verifier::external_body]
fn decimal_checked_mul(a: Money, b: Money) -> (r: Option<Money>)
    requires
        a.wf(),
        b.wf(),
    ensures
        r == from_parts(decimal_product(a.mantissa, a.scale, b.mantissa, b.scale)),
        r == product_of(a, b, decimal_product(a.mantissa, a.scale, b.mantissa, b.scale)),
        r is Some ==> r->0.wf(),
{
    let x = rust_decimal::Decimal::from_i128_with_scale(a.mantissa, a.scale);
    let y = rust_decimal::Decimal::from_i128_with_scale(b.mantissa, b.scale);
    match x.checked_mul(y) {
        Some(d) => Some(Money { mantissa: d.mantissa(), scale: d.scale() }),
        None => None,
    }
}

/// The `Display` form of `rust_decimal::Decimal`, through `to_string`. The
/// contract claims the text that [`decimal_text`] spells out: sign, digits,
/// zeros in front up to one digit before the point, and the point.
#[verifier::external_body]
fn decimal_to_string(a: Money) -> (s: String)
    requires
        a.wf(),
    ensures
        s@ == decimal_text(a.mantissa, a.scale),
{
    rust_decimal::Decimal::from_i128_with_scale(a.mantissa, a.scale).to_string()
}

} // verus!

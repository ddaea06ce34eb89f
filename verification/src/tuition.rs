//! The tuition formula: credits times the cost of one credit, plus the
//! non-residency fee, plus the orientation fee where orientation was asked
//! for.

use vstd::prelude::*;
use crate::money::{
    Money,
    MAX_SCALE_STEP,
    money_sum,
    money_product,
    zero_amount,
    count_amount,
    mantissa_in_range,
    mantissa_at,
    larger_scale,
    is_short,
    aligns,
    pow10,
};

verus! {

/// The rates of one study level and residency.
#[derive(Debug, Clone, Copy, PartialEq, Eq, Structural)]
pub struct TuitionRates {
    pub credits_cost: Money,
    pub nonresidency_fee: Money,
}

impl TuitionRates {
    pub open spec fn wf(self) -> bool {
        self.credits_cost.wf() && self.nonresidency_fee.wf()
    }
}

/// The fee that enters the total: the orientation fee where there is one,
/// zero where there is none.
pub open spec fn fee_or_zero(fee: Option<Money>) -> Money {
    match fee {
        Some(f) => f,
        None => zero_amount(),
    }
}

/// Cost of the credits plus the non-residency fee, `None` on overflow.
pub open spec fn base_amount(rates: TuitionRates, credits: u8) -> Option<Money> {
    match money_product(rates.credits_cost, count_amount(credits)) {
        Some(p) => money_sum(p, rates.nonresidency_fee),
        None => None,
    }
}

/// The total: the product first, then the two additions from left to right.
/// `None` where one of the three steps overflows.
pub open spec fn total_amount(rates: TuitionRates, credits: u8, fee: Option<Money>) -> Option<Money> {
    match base_amount(rates, credits) {
        Some(b) => money_sum(b, fee_or_zero(fee)),
        None => None,
    }
}

/// Computes the total for a number of credits. `fee` is the orientation fee
/// where orientation was asked for.
pub fn tuition_total(rates: &TuitionRates, credits: u8, fee: Option<Money>) -> (r: Option<Money>)
    requires
        rates.wf(),
        fee is Some ==> fee->0.wf(),
    ensures
        r == total_amount(*rates, credits, fee),
        r is Some ==> r->0.wf(),
{
    let product = match rates.credits_cost.checked_mul(Money::from_count(credits)) {
        Some(p) => p,
        None => {
            return None;
        },
    };
    let base = match product.checked_add(rates.nonresidency_fee) {
        Some(b) => b,
        None => {
            return None;
        },
    };
    let added = match fee {
        Some(f) => f,
        None => Money::zero(),
    };
    base.checked_add(added)
}

/// Without orientation the total is the cost of the credits plus the
/// non-residency fee and nothing else: where that amount is not zero the total
/// is that very amount, and where it is zero the total is zero.
pub proof fn lemma_total_without_orientation(rates: TuitionRates, credits: u8)
    ensures
        total_amount(rates, credits, None) is Some <==> base_amount(rates, credits) is Some,
        base_amount(rates, credits) is Some && base_amount(rates, credits)->0.mantissa != 0
            ==> total_amount(rates, credits, None) == base_amount(rates, credits),
        base_amount(rates, credits) is Some && base_amount(rates, credits)->0.mantissa == 0
            ==> total_amount(rates, credits, None) == Some(zero_amount()),
{
}

/// Where the cost of a credit and the non-residency fee have the same scale
/// and neither the product nor the sum leaves the range of the mantissa, the
/// total without orientation is exactly
/// `credits_cost * credits + nonresidency_fee`: the mantissas combine as
/// integers, with no rounding.
pub proof fn lemma_total_is_exact(rates: TuitionRates, credits: u8)
    requires
        rates.wf(),
        rates.credits_cost.scale == rates.nonresidency_fee.scale,
        mantissa_in_range(rates.credits_cost.mantissa * credits),
        mantissa_in_range(rates.credits_cost.mantissa * credits + rates.nonresidency_fee.mantissa),
    ensures
        total_amount(rates, credits, None) is Some,
        total_amount(rates, credits, None)->0.mantissa == rates.credits_cost.mantissa * credits
            + rates.nonresidency_fee.mantissa,
        total_amount(rates, credits, None)->0.mantissa != 0 ==> total_amount(
            rates,
            credits,
            None,
        )->0.scale == rates.credits_cost.scale,
{
    lemma_base_is_exact(rates, credits);
}

/// The exact value of cost of credits plus non-residency fee, under the
/// conditions of [`lemma_total_is_exact`].
pub proof fn lemma_base_is_exact(rates: TuitionRates, credits: u8)
    requires
        rates.wf(),
        rates.credits_cost.scale == rates.nonresidency_fee.scale,
        mantissa_in_range(rates.credits_cost.mantissa * credits),
        mantissa_in_range(rates.credits_cost.mantissa * credits + rates.nonresidency_fee.mantissa),
    ensures
        base_amount(rates, credits) == Some(
            Money {
                mantissa: (rates.credits_cost.mantissa * credits
                    + rates.nonresidency_fee.mantissa) as i128,
                scale: rates.credits_cost.scale,
            },
        ),
{
    let c = rates.credits_cost;
    let n = count_amount(credits);
    assert(c.mantissa * n.mantissa == c.mantissa * credits);
    if c.mantissa == 0 || credits == 0 {
        assert(c.mantissa * credits == 0) by (nonlinear_arith)
            requires
                c.mantissa == 0 || credits == 0,
        ;
    } else {
        assert(c.mantissa * credits != 0) by (nonlinear_arith)
            requires
                c.mantissa != 0,
                credits != 0,
        ;
    }
}

/// The integer that the cost of the credits plus the non-residency fee is at
/// a scale that is not smaller than the scales of the two rates.
pub open spec fn base_at(rates: TuitionRates, credits: u8, scale: nat) -> int {
    rates.credits_cost.mantissa * credits * pow10((scale - rates.credits_cost.scale) as nat)
        + mantissa_at(rates.nonresidency_fee, scale)
}

/// The rates and the number of credits are such that the formula is a sum of
/// integers: the cost of the credits and the fee fit in 64 bits, their scales
/// are at most 19 digits apart, and the sum at the larger scale is in range.
pub open spec fn formula_is_exact(rates: TuitionRates, credits: u8) -> bool {
    let s = larger_scale(rates.credits_cost, rates.nonresidency_fee) as nat;
    &&& rates.wf()
    &&& is_short(rates.credits_cost.mantissa * credits)
    &&& is_short(rates.nonresidency_fee.mantissa as int)
    &&& s - rates.credits_cost.scale <= MAX_SCALE_STEP
    &&& s - rates.nonresidency_fee.scale <= MAX_SCALE_STEP
    &&& mantissa_in_range(base_at(rates, credits, s))
}

/// Whatever the scales of the two rates, the cost of the credits plus the
/// non-residency fee is exactly `credits_cost * credits + nonresidency_fee`
/// where the formula is exact: written at the larger of the two scales, the
/// result is the integer that the formula gives there.
pub proof fn lemma_base_is_exact_at_any_scale(rates: TuitionRates, credits: u8)
    requires
        formula_is_exact(rates, credits),
    ensures
        base_amount(rates, credits) is Some,
        base_amount(rates, credits)->0.scale <= larger_scale(
            rates.credits_cost,
            rates.nonresidency_fee,
        ),
        mantissa_at(
            base_amount(rates, credits)->0,
            larger_scale(rates.credits_cost, rates.nonresidency_fee) as nat,
        ) == base_at(
            rates,
            credits,
            larger_scale(rates.credits_cost, rates.nonresidency_fee) as nat,
        ),
{
    let c = rates.credits_cost;
    let f = rates.nonresidency_fee;
    let s = larger_scale(c, f) as nat;
    let n = count_amount(credits);
    let up_c = pow10((s - c.scale) as nat);
    let up_f = pow10((s - f.scale) as nat);
    assert(pow10(0) == 1);
    assert(c.mantissa * n.mantissa == c.mantissa * credits);
    if c.mantissa == 0 || credits == 0 {
        assert(c.mantissa * credits == 0) by (nonlinear_arith)
            requires
                c.mantissa == 0 || credits == 0,
        ;
        assert(c.mantissa * credits * up_c == 0) by (nonlinear_arith)
            requires
                c.mantissa * credits == 0,
        ;
        assert(base_amount(rates, credits) == Some(f));
    } else {
        assert(c.mantissa * credits != 0) by (nonlinear_arith)
            requires
                c.mantissa != 0,
                credits != 0,
        ;
        let p = Money { mantissa: (c.mantissa * credits) as i128, scale: c.scale };
        assert(money_product(c, n) == Some(p));
        assert(mantissa_at(p, s) == c.mantissa * credits * up_c);
        if f.mantissa == 0 {
            assert(f.mantissa * up_f == 0) by (nonlinear_arith)
                requires
                    f.mantissa == 0,
            ;
            assert(base_amount(rates, credits) == Some(p));
        } else if c.scale == f.scale {
            assert(p.mantissa * 1 == p.mantissa);
            assert(f.mantissa * 1 == f.mantissa);
            let q = Money { mantissa: (p.mantissa + f.mantissa) as i128, scale: c.scale };
            assert(base_amount(rates, credits) == Some(q));
            assert(q.mantissa * 1 == q.mantissa);
        } else {
            assert(larger_scale(p, f) == s);
            assert(aligns(p, f));
            let q = Money { mantissa: (mantissa_at(p, s) + mantissa_at(f, s)) as i128, scale: s as u32 };
            assert(base_amount(rates, credits) == Some(q));
            assert(q.mantissa * 1 == q.mantissa);
        }
    }
}

/// Whatever the scales of the two rates, the total without orientation is
/// exactly `credits_cost * credits + nonresidency_fee` where the formula is
/// exact: a total that is not zero is, at the larger of the two scales, the
/// integer that the formula gives there, and a total of zero comes only where
/// the formula gives zero.
pub proof fn lemma_total_is_exact_at_any_scale(rates: TuitionRates, credits: u8)
    requires
        formula_is_exact(rates, credits),
    ensures
        total_amount(rates, credits, None) is Some,
        total_amount(rates, credits, None)->0.mantissa != 0 ==> total_amount(
            rates,
            credits,
            None,
        )->0.scale <= larger_scale(rates.credits_cost, rates.nonresidency_fee) && mantissa_at(
            total_amount(rates, credits, None)->0,
            larger_scale(rates.credits_cost, rates.nonresidency_fee) as nat,
        ) == base_at(
            rates,
            credits,
            larger_scale(rates.credits_cost, rates.nonresidency_fee) as nat,
        ),
        total_amount(rates, credits, None)->0.mantissa == 0 ==> base_at(
            rates,
            credits,
            larger_scale(rates.credits_cost, rates.nonresidency_fee) as nat,
        ) == 0,
{
    lemma_base_is_exact_at_any_scale(rates, credits);
    let q = base_amount(rates, credits)->0;
    let s = larger_scale(rates.credits_cost, rates.nonresidency_fee) as nat;
    if q.mantissa == 0 {
        assert(q.mantissa * pow10((s - q.scale) as nat) == 0) by (nonlinear_arith)
            requires
                q.mantissa == 0,
        ;
    }
}

/// Asking for orientation adds exactly the orientation fee: the total with the
/// fee is the total without it plus the fee.
pub proof fn lemma_orientation_adds_fee(rates: TuitionRates, credits: u8, fee: Money)
    ensures
        total_amount(rates, credits, Some(fee)) == match total_amount(rates, credits, None) {
            Some(t) => money_sum(t, fee),
            None => None,
        },
{
}

/// With all three amounts at one scale and every intermediate value in range,
/// the total with orientation is exactly
/// `credits_cost * credits + nonresidency_fee + fee`.
pub proof fn lemma_total_with_orientation_is_exact(rates: TuitionRates, credits: u8, fee: Money)
    requires
        rates.wf(),
        fee.wf(),
        rates.credits_cost.scale == rates.nonresidency_fee.scale,
        rates.credits_cost.scale == fee.scale,
        mantissa_in_range(rates.credits_cost.mantissa * credits),
        mantissa_in_range(rates.credits_cost.mantissa * credits + rates.nonresidency_fee.mantissa),
        mantissa_in_range(
            rates.credits_cost.mantissa * credits + rates.nonresidency_fee.mantissa + fee.mantissa,
        ),
    ensures
        total_amount(rates, credits, Some(fee)) == Some(
            Money {
                mantissa: (rates.credits_cost.mantissa * credits + rates.nonresidency_fee.mantissa
                    + fee.mantissa) as i128,
                scale: fee.scale,
            },
        ),
{
    lemma_base_is_exact(rates, credits);
}

} // verus!

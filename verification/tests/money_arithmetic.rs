use rust_decimal::Decimal;
use tuition_calculator::money::{
    Money, MAX_MANTISSA, MAX_SCALE, MAX_SCALE_STEP, MAX_SHORT_MANTISSA,
};
use tuition_calculator::tuition::{tuition_total, TuitionRates};

fn money(mantissa: i128, scale: u32) -> Money {
    Money::new(mantissa, scale).unwrap()
}

fn decimal(m: Money) -> Decimal {
    Decimal::from_i128_with_scale(m.mantissa, m.scale)
}

fn rates(cost: Money, fee: Money) -> TuitionRates {
    TuitionRates { credits_cost: cost, nonresidency_fee: fee }
}

#[test]
fn total_without_orientation() {
    let r = rates(money(30000, 2), money(50000, 2));
    let total = tuition_total(&r, 12, None).unwrap();
    assert_eq!(total, money(410000, 2));
    assert_eq!(total.text(), "4100.00");
}

#[test]
fn orientation_adds_exactly_the_fee() {
    let r = rates(money(30000, 2), money(50000, 2));
    let fee = money(7550, 2);
    let without = tuition_total(&r, 12, None).unwrap();
    let with = tuition_total(&r, 12, Some(fee)).unwrap();
    assert_eq!(with, money(417550, 2));
    assert_eq!(with, without.checked_add(fee).unwrap());
    assert_eq!(with.mantissa - without.mantissa, fee.mantissa);
    assert_eq!(with.text(), "4175.50");
}

#[test]
fn resident_pays_no_surcharge() {
    let r = rates(money(25050, 2), money(0, 2));
    assert_eq!(tuition_total(&r, 3, None).unwrap(), money(75150, 2));
}

#[test]
fn zero_credits_leave_the_fees() {
    let r = rates(money(30000, 2), money(50000, 2));
    assert_eq!(tuition_total(&r, 0, None).unwrap(), money(50000, 2));
    assert_eq!(tuition_total(&r, 0, Some(money(100, 2))).unwrap(), money(50100, 2));
}

#[test]
fn nothing_to_pay_is_zero() {
    let r = rates(money(0, 2), money(0, 2));
    let total = tuition_total(&r, 0, None).unwrap();
    assert_eq!(total.mantissa, 0);
    assert_eq!(total.text(), "0.00");
}

#[test]
fn total_agrees_with_decimal_arithmetic() {
    let costs = [money(30000, 2), money(1, 0), money(123456789, 4), money(-500, 1), money(0, 5), money(99999, 3)];
    let fees = [money(50000, 2), money(0, 2), money(5, 0), money(77, 6)];
    let orientation = [None, Some(money(7500, 2)), Some(money(1, 3)), Some(money(0, 0))];
    for cost in costs {
        for fee in fees {
            for extra in orientation {
                for credits in [0u8, 1, 12, 255] {
                    let expected = decimal(cost) * Decimal::from(credits)
                        + decimal(fee)
                        + extra.map(decimal).unwrap_or(Decimal::new(0, 2));
                    let total = tuition_total(&rates(cost, fee), credits, extra).unwrap();
                    assert_eq!(total.mantissa, expected.mantissa());
                    assert_eq!(total.scale, expected.scale());
                    assert_eq!(total.text(), expected.to_string());
                }
            }
        }
    }
}

#[test]
fn overflow_gives_no_total() {
    let r = rates(money(MAX_MANTISSA, 0), money(0, 0));
    assert_eq!(tuition_total(&r, 2, None), None);
    let r = rates(money(MAX_MANTISSA, 0), money(1, 0));
    assert_eq!(tuition_total(&r, 1, None), None);
    let r = rates(money(MAX_MANTISSA, 0), money(0, 0));
    assert_eq!(tuition_total(&r, 1, Some(money(1, 0))), None);
    assert_eq!(tuition_total(&r, 1, None), Some(money(MAX_MANTISSA, 0)));
}

#[test]
fn amounts_have_bounds() {
    assert!(Money::new(MAX_MANTISSA, MAX_SCALE).is_some());
    assert!(Money::new(-MAX_MANTISSA, 0).is_some());
    assert!(Money::new(MAX_MANTISSA + 1, 0).is_none());
    assert!(Money::new(-MAX_MANTISSA - 1, 0).is_none());
    assert!(Money::new(1, MAX_SCALE + 1).is_none());
    assert_eq!(MAX_MANTISSA, (1i128 << 96) - 1);
    assert_eq!(MAX_SCALE, 28);
    assert!(money(5, 3).is_well_formed());
    assert!(!Money { mantissa: i128::MAX, scale: 0 }.is_well_formed());
    assert!(!Money { mantissa: 0, scale: 29 }.is_well_formed());
}

#[test]
fn sums_are_exact() {
    assert_eq!(money(100, 2).checked_add(money(200, 2)), Some(money(300, 2)));
    assert_eq!(money(100, 2).checked_add(money(-100, 2)), Some(money(0, 2)));
    assert_eq!(money(-100, 2).checked_add(money(100, 2)), Some(money(0, 2)));
    assert_eq!(money(0, 5).checked_add(money(7, 1)), Some(money(7, 1)));
    assert_eq!(money(7, 1).checked_add(money(0, 5)), Some(money(7, 1)));
    assert_eq!(money(0, 5).checked_add(money(0, 1)), Some(money(0, 1)));
    assert_eq!(money(MAX_MANTISSA, 0).checked_add(money(1, 0)), None);
    assert_eq!(
        money(MAX_MANTISSA - 1, 3).checked_add(money(1, 3)),
        Some(money(MAX_MANTISSA, 3))
    );
    assert_eq!(money(4_000_000_000, 0).checked_add(money(4_000_000_000, 0)), Some(money(8_000_000_000, 0)));
    assert_eq!(money(15, 1).checked_add(money(25, 2)), Some(money(175, 2)));
}

#[test]
fn products_are_exact() {
    assert_eq!(money(30000, 2).checked_mul(money(12, 0)), Some(money(360000, 2)));
    assert_eq!(money(15, 1).checked_mul(money(-25, 2)), Some(money(-375, 3)));
    assert_eq!(money(0, 7).checked_mul(money(25, 2)), Some(money(0, 0)));
    assert_eq!(money(25, 2).checked_mul(money(0, 7)), Some(money(0, 0)));
    assert_eq!(money(MAX_MANTISSA, 0).checked_mul(money(2, 0)), None);
    assert_eq!(
        money(1 << 48, 14).checked_mul(money((1 << 48) - 1, 14)),
        Some(money((1i128 << 48) * ((1i128 << 48) - 1), 28))
    );
    assert_eq!(
        money(18_446_744_073_709_551_616, 0).checked_mul(money(3, 4)),
        Some(money(55_340_232_221_128_654_848, 4))
    );
}

#[test]
fn amounts_are_written_with_their_scale() {
    assert_eq!(money(3141, 3).text(), "3.141");
    assert_eq!(money(410000, 2).text(), "4100.00");
    assert_eq!(money(-5, 2).text(), "-0.05");
    assert_eq!(money(42, 0).text(), "42");
    assert_eq!(Money::zero().text(), "0.00");
    assert_eq!(Money::from_count(12), money(12, 0));
    assert_eq!(Money::from_count(12).text(), "12");
}

fn sample_mantissas() -> Vec<i128> {
    let mut all: Vec<i128> = Vec::new();
    for m in [
        0i128,
        1,
        2,
        9,
        10,
        255,
        30000,
        429_496_729,
        429_496_730,
        1_844_674_407_370_955_161,
        1_844_674_407_370_955_162,
        7_922_816_251_426_433_759,
        (1 << 31) - 1,
        1 << 31,
        (1 << 32) - 1,
        1 << 32,
        (1 << 32) + 1,
        (1 << 63) - 1,
        1 << 63,
        (1 << 64) - 1,
        1 << 64,
        (1 << 64) + 1,
        1 << 70,
        (1 << 95) - 1,
        1 << 95,
        MAX_MANTISSA / 2,
        MAX_MANTISSA / 2 + 1,
        MAX_MANTISSA - 1,
        MAX_MANTISSA,
    ] {
        all.push(m);
        all.push(-m);
    }
    all
}

#[test]
fn sums_follow_the_stated_rules() {
    let scales = [0u32, 1, 2, 3, 9, 10, 11, 19, 20, 27, 28];
    for a_m in sample_mantissas() {
        for b_m in sample_mantissas() {
            for a_s in scales {
                for b_s in scales {
                    let a = money(a_m, a_s);
                    let b = money(b_m, b_s);
                    let sum = a.checked_add(b);
                    if let Some(s) = sum {
                        assert!(s.is_well_formed());
                    }
                    if a_m == 0 {
                        assert_eq!(sum, Some(b));
                    } else if b_m == 0 {
                        assert_eq!(sum, Some(a));
                    } else if a_s == b_s && -MAX_MANTISSA <= a_m + b_m && a_m + b_m <= MAX_MANTISSA {
                        assert_eq!(sum, Some(money(a_m + b_m, a_s)));
                    } else if a_s != b_s
                        && a_m.abs() <= MAX_SHORT_MANTISSA
                        && b_m.abs() <= MAX_SHORT_MANTISSA
                        && a_s.abs_diff(b_s) <= MAX_SCALE_STEP
                    {
                        let s = a_s.max(b_s);
                        let at = a_m * 10i128.pow(s - a_s) + b_m * 10i128.pow(s - b_s);
                        if -MAX_MANTISSA <= at && at <= MAX_MANTISSA {
                            assert_eq!(sum, Some(money(at, s)), "{:?} + {:?}", a, b);
                        }
                    }
                    let direct = decimal(a).checked_add(decimal(b));
                    assert_eq!(sum.map(|s| (s.mantissa, s.scale)), direct.map(|d| (d.mantissa(), d.scale())));
                }
            }
        }
    }
}

#[test]
fn products_follow_the_stated_rules() {
    let scales = [0u32, 1, 2, 9, 14, 19, 27, 28];
    for a_m in sample_mantissas() {
        for b_m in sample_mantissas() {
            for a_s in scales {
                for b_s in scales {
                    let a = money(a_m, a_s);
                    let b = money(b_m, b_s);
                    let product = a.checked_mul(b);
                    if let Some(p) = product {
                        assert!(p.is_well_formed());
                    }
                    if a_m == 0 || b_m == 0 {
                        assert_eq!(product, Some(money(0, 0)));
                    } else if a_s + b_s <= MAX_SCALE {
                        if let Some(exact) = a_m.checked_mul(b_m) {
                            if -MAX_MANTISSA <= exact && exact <= MAX_MANTISSA {
                                assert_eq!(product, Some(money(exact, a_s + b_s)));
                            }
                        }
                    }
                    let direct = decimal(a).checked_mul(decimal(b));
                    assert_eq!(product.map(|p| (p.mantissa, p.scale)), direct.map(|d| (d.mantissa(), d.scale())));
                }
            }
        }
    }
}

#[test]
fn sums_of_different_scales_are_exact() {
    assert_eq!(money(3005, 1).checked_add(money(50000, 2)), Some(money(80050, 2)));
    assert_eq!(money(50000, 2).checked_add(money(3005, 1)), Some(money(80050, 2)));
    assert_eq!(money(-1, 0).checked_add(money(1, 19)), Some(money(-9_999_999_999_999_999_999, 19)));
    assert_eq!(money(7, 0).checked_add(money(-70, 1)), Some(money(0, 1)));
    let r = rates(money(3005, 1), money(50000, 2));
    assert_eq!(tuition_total(&r, 12, None), Some(money(410600, 2)));
    assert_eq!(tuition_total(&r, 12, Some(money(5, 3))), Some(money(4106005, 3)));
}

use bigdecimal::num_bigint::BigInt;
use bigdecimal::BigDecimal;
use bigdecimal::ToPrimitive;
use orm_lib::decimal::Decimal;

fn big(d: &Decimal) -> BigDecimal {
    BigDecimal::new(BigInt::from(d.unscaled), d.scale)
}

#[test]
fn new_keeps_unscaled_value_and_scale() {
    let d = Decimal::new(-12345, 2);
    assert_eq!(d.unscaled, -12345);
    assert_eq!(d.scale, 2);
}

#[test]
fn zero_has_no_digits_after_the_point() {
    assert_eq!(Decimal::zero(), Decimal { unscaled: 0, scale: 0 });
}

#[test]
fn sign_tests_follow_the_unscaled_value() {
    assert!(Decimal::new(1, 5).is_positive());
    assert!(!Decimal::new(1, 5).is_negative());
    assert!(Decimal::new(-1, -5).is_negative());
    assert!(!Decimal::new(-1, -5).is_positive());
    assert!(!Decimal::new(0, 3).is_positive());
    assert!(!Decimal::new(0, 3).is_negative());
}

#[test]
fn absolute_value_keeps_the_scale() {
    assert_eq!(Decimal::new(-12345, 2).checked_abs(), Some(Decimal::new(12345, 2)));
    assert_eq!(Decimal::new(12345, 2).checked_abs(), Some(Decimal::new(12345, 2)));
    assert_eq!(Decimal::new(0, 7).checked_abs(), Some(Decimal::new(0, 7)));
    assert_eq!(Decimal::new(i128::MIN + 1, 0).checked_abs(), Some(Decimal::new(i128::MAX, 0)));
}

#[test]
fn absolute_value_of_the_lowest_unscaled_value_does_not_fit() {
    assert_eq!(Decimal::new(i128::MIN, 0).checked_abs(), None);
}

#[test]
fn sum_at_one_scale_adds_the_unscaled_values() {
    let sum = Decimal::new(150, 2).checked_add(&Decimal::new(275, 2));
    assert_eq!(sum, Some(Decimal::new(425, 2)));
}

#[test]
fn sum_is_written_at_the_larger_scale() {
    // 1.5 + 2.25 = 3.75
    assert_eq!(
        Decimal::new(15, 1).checked_add(&Decimal::new(225, 2)),
        Some(Decimal::new(375, 2))
    );
    assert_eq!(
        Decimal::new(225, 2).checked_add(&Decimal::new(15, 1)),
        Some(Decimal::new(375, 2))
    );
    // 100 + 1, the first written as 1 * 10^2
    assert_eq!(
        Decimal::new(1, -2).checked_add(&Decimal::new(1, 0)),
        Some(Decimal::new(101, 0))
    );
}

#[test]
fn sum_with_zero_is_aligned_too() {
    assert_eq!(
        Decimal::new(7, 0).checked_add(&Decimal::new(0, 3)),
        Some(Decimal::new(7000, 3))
    );
    assert_eq!(
        Decimal::new(0, 0).checked_add(&Decimal::new(5, 1000)),
        Some(Decimal::new(5, 1000))
    );
    assert_eq!(
        Decimal::new(0, i64::MIN).checked_add(&Decimal::new(0, i64::MAX)),
        Some(Decimal::new(0, i64::MAX))
    );
}

#[test]
fn sum_that_leaves_the_range_is_refused() {
    assert_eq!(Decimal::new(i128::MAX, 0).checked_add(&Decimal::new(1, 0)), None);
    assert_eq!(Decimal::new(i128::MIN, 0).checked_add(&Decimal::new(-1, 0)), None);
    assert_eq!(
        Decimal::new(i128::MAX, 0).checked_add(&Decimal::new(-1, 0)),
        Some(Decimal::new(i128::MAX - 1, 0))
    );
}

#[test]
fn number_too_far_left_of_the_other_is_refused() {
    // 1 written with 40 digits after the point needs 41 digits.
    assert_eq!(Decimal::new(1, 0).checked_add(&Decimal::new(1, 40)), None);
    assert_eq!(Decimal::new(1, 40).checked_add(&Decimal::new(1, 0)), None);
    assert_eq!(Decimal::new(1, 0).checked_add(&Decimal::new(0, 39)), None);
    assert_eq!(Decimal::new(-1, 0).checked_add(&Decimal::new(i128::MAX, 39)), None);
    assert_eq!(Decimal::new(1, i64::MIN).checked_add(&Decimal::new(1, i64::MAX)), None);
    assert_eq!(Decimal::new(1, 0).checked_sub(&Decimal::new(1, 39)), None);
    assert_eq!(Decimal::new(1, 39).checked_sub(&Decimal::new(1, 0)), None);
    assert_eq!(Decimal::new(1, i64::MAX).checked_sub(&Decimal::new(-1, i64::MIN)), None);
}

#[test]
fn only_the_result_has_to_fit() {
    assert_eq!(
        Decimal::new(1, 0).checked_add(&Decimal::new(0, 38)),
        Some(Decimal::new(100_000_000_000_000_000_000_000_000_000_000_000_000, 38))
    );
    // 2 - 1.5 at 38 digits after the point: 2 alone does not fit at that scale.
    assert_eq!(
        Decimal::new(2, 0)
            .checked_add(&Decimal::new(-150_000_000_000_000_000_000_000_000_000_000_000_000, 38)),
        Some(Decimal::new(50_000_000_000_000_000_000_000_000_000_000_000_000, 38))
    );
    assert_eq!(
        Decimal::new(2, 0)
            .checked_sub(&Decimal::new(150_000_000_000_000_000_000_000_000_000_000_000_000, 38)),
        Some(Decimal::new(50_000_000_000_000_000_000_000_000_000_000_000_000, 38))
    );
    assert_eq!(
        Decimal::new(-1, 0).checked_sub(&Decimal::new(i128::MIN, 0)),
        Some(Decimal::new(i128::MAX, 0))
    );
}

#[test]
fn negation_keeps_the_scale() {
    assert_eq!(Decimal::new(125, 2).checked_neg(), Some(Decimal::new(-125, 2)));
    assert_eq!(Decimal::new(-125, -2).checked_neg(), Some(Decimal::new(125, -2)));
    assert_eq!(Decimal::new(0, 9).checked_neg(), Some(Decimal::new(0, 9)));
    assert_eq!(Decimal::new(i128::MAX, 0).checked_neg(), Some(Decimal::new(i128::MIN + 1, 0)));
    assert_eq!(Decimal::new(i128::MIN, 0).checked_neg(), None);
}

#[test]
fn difference_is_written_at_the_larger_scale() {
    // 3.75 - 1.5 = 2.25
    assert_eq!(
        Decimal::new(375, 2).checked_sub(&Decimal::new(15, 1)),
        Some(Decimal::new(225, 2))
    );
    // 1.5 - 3.75 = -2.25
    assert_eq!(
        Decimal::new(15, 1).checked_sub(&Decimal::new(375, 2)),
        Some(Decimal::new(-225, 2))
    );
    assert_eq!(
        Decimal::new(5, 0).checked_sub(&Decimal::new(0, 2)),
        Some(Decimal::new(500, 2))
    );
    assert_eq!(
        Decimal::new(0, 3).checked_sub(&Decimal::new(5, 0)),
        Some(Decimal::new(-5000, 3))
    );
    assert_eq!(
        Decimal::new(0, 0).checked_sub(&Decimal::new(5, 1000)),
        Some(Decimal::new(-5, 1000))
    );
    assert_eq!(
        Decimal::new(5, 1000).checked_sub(&Decimal::new(0, 0)),
        Some(Decimal::new(5, 1000))
    );
    assert_eq!(
        Decimal::new(0, 1000).checked_sub(&Decimal::new(0, 0)),
        Some(Decimal::new(0, 1000))
    );
}

#[test]
fn difference_that_leaves_the_range_is_refused() {
    assert_eq!(Decimal::new(i128::MIN, 0).checked_sub(&Decimal::new(1, 0)), None);
    assert_eq!(Decimal::new(0, 0).checked_sub(&Decimal::new(i128::MIN, 0)), None);
    assert_eq!(Decimal::new(0, 5).checked_sub(&Decimal::new(i128::MIN, 0)), None);
    assert_eq!(Decimal::new(1, 0).checked_sub(&Decimal::new(i128::MIN, 0)), None);
}

fn at_scale(exact: &BigDecimal, scale: i64) -> Option<Decimal> {
    let (digits, _) = exact.with_scale(scale).as_bigint_and_exponent();
    digits.to_i128().map(|unscaled| Decimal::new(unscaled, scale))
}

#[test]
fn sums_and_differences_agree_with_arbitrary_precision_arithmetic() {
    let samples = [
        Decimal::new(0, 0),
        Decimal::new(1, 0),
        Decimal::new(-1, 3),
        Decimal::new(123_456_789, 4),
        Decimal::new(-987_654_321_000, 9),
        Decimal::new(5, -3),
        Decimal::new(i64::MAX as i128, 2),
        Decimal::new(i64::MIN as i128, 0),
        Decimal::new(0, 12),
        Decimal::new(-7, 38),
        Decimal::new(i128::MAX, 20),
        Decimal::new(i128::MIN, 21),
        Decimal::new(0, 60),
    ];
    let mut refused = 0;
    for a in samples.iter() {
        for b in samples.iter() {
            let larger = if a.scale >= b.scale { a.scale } else { b.scale };
            let sum = a.checked_add(b);
            assert_eq!(sum, at_scale(&(big(a) + big(b)), larger));
            let difference = a.checked_sub(b);
            assert_eq!(difference, at_scale(&(big(a) - big(b)), larger));
            if let Some(sum) = sum {
                assert_eq!(big(&sum), big(a) + big(b));
            } else {
                refused += 1;
            }
        }
        assert_eq!(a.checked_abs(), at_scale(&big(a).abs(), a.scale));
        assert_eq!(a.is_positive(), big(a) > BigDecimal::from(0));
        assert_eq!(a.is_negative(), big(a) < BigDecimal::from(0));
    }
    assert!(refused > 0);
}

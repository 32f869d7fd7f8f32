use cosmwasm_std::{Fraction, Uint128};

use reward_pool::decimal::{
    checked_mul_floor, checked_multiply_ratio, times, Decimal, DECIMAL_FRACTIONAL,
};
use reward_pool::response::{amount_text, Response};

#[test]
fn unit_is_ten_to_the_eighteenth() {
    assert_eq!(DECIMAL_FRACTIONAL, 10u128.pow(18));
    assert_eq!(DECIMAL_FRACTIONAL, cosmwasm_std::Decimal::one().numerator());
}

#[test]
fn multiply_ratio_truncates() {
    assert_eq!(checked_multiply_ratio(100, 1, 3), Some(33));
    assert_eq!(checked_multiply_ratio(100, 2, 3), Some(66));
    assert_eq!(checked_multiply_ratio(7, 5, 10), Some(3));
    assert_eq!(checked_multiply_ratio(0, 5, 10), Some(0));
    assert_eq!(checked_multiply_ratio(5, 0, 10), Some(0));
    assert_eq!(checked_multiply_ratio(1, 1, u128::MAX), Some(0));
}

#[test]
fn multiply_ratio_takes_the_product_in_full_width() {
    assert_eq!(checked_multiply_ratio(u128::MAX, u128::MAX, u128::MAX), Some(u128::MAX));
    assert_eq!(checked_multiply_ratio(u128::MAX, 10, 20), Some(u128::MAX / 2));
    assert_eq!(
        checked_multiply_ratio(u128::MAX - 1, DECIMAL_FRACTIONAL, DECIMAL_FRACTIONAL),
        Some(u128::MAX - 1)
    );
    assert_eq!(
        checked_multiply_ratio(1u128 << 127, 3, 2),
        Some((1u128 << 127) + (1u128 << 126))
    );
}

#[test]
fn multiply_ratio_reports_what_does_not_fit() {
    assert_eq!(checked_multiply_ratio(u128::MAX, 2, 1), None);
    assert_eq!(checked_multiply_ratio(u128::MAX, 3, 2), None);
    assert_eq!(checked_multiply_ratio(1u128 << 127, 2, 1), None);
    assert_eq!(checked_multiply_ratio(u128::MAX, u128::MAX, u128::MAX - 1), None);
}

#[test]
fn multiply_ratio_agrees_with_the_ledger_arithmetic_of_the_host() {
    let cases: [(u128, u128, u128); 8] = [
        (100, 500_000_000_000_000_000, DECIMAL_FRACTIONAL),
        (1_000_000_000, DECIMAL_FRACTIONAL, 100),
        (12_345_678_901_234_567_890, 987_654_321, 1_000_003),
        (u128::MAX, 7, 9),
        (u128::MAX / 3, 3, 1),
        (999, 999, 1_000),
        (1, DECIMAL_FRACTIONAL, 3),
        (340_282_366_920_938_463_463, DECIMAL_FRACTIONAL, 1),
    ];
    for (value, numerator, denominator) in cases {
        assert_eq!(
            checked_multiply_ratio(value, numerator, denominator),
            Some(Uint128::new(value).multiply_ratio(numerator, denominator).u128())
        );
    }
}

#[test]
fn ratio_of_two_amounts() {
    assert_eq!(Decimal::from_ratio(1, 2).atomics, 500_000_000_000_000_000);
    assert_eq!(Decimal::from_ratio(1, 3).atomics, 333_333_333_333_333_333);
    assert_eq!(Decimal::from_ratio(2, 3).atomics, 666_666_666_666_666_666);
    assert_eq!(Decimal::from_ratio(400, 400).atomics, DECIMAL_FRACTIONAL);
    assert_eq!(Decimal::from_ratio(0, 7).atomics, 0);
    assert_eq!(
        Decimal::from_ratio(1_000_000_000, 100).atomics,
        cosmwasm_std::Decimal::from_ratio(1_000_000_000u128, 100u128).numerator()
    );
    assert_eq!(
        Decimal::checked_from_ratio(1, 3),
        Some(Decimal { atomics: 333_333_333_333_333_333 })
    );
    assert_eq!(Decimal::checked_from_ratio(u128::MAX, 1), None);
    assert_eq!(
        Decimal::checked_from_ratio(340_282_366_920_938_463_463, 1),
        Some(Decimal { atomics: 340_282_366_920_938_463_463 * DECIMAL_FRACTIONAL })
    );
    assert_eq!(Decimal::checked_from_ratio(340_282_366_920_938_463_464, 1), None);
}

#[test]
fn percent_and_zero() {
    assert_eq!(Decimal::zero().atomics, 0);
    assert_eq!(Decimal::default(), Decimal::zero());
    assert_eq!(Decimal::percent(50).atomics, cosmwasm_std::Decimal::percent(50).numerator());
    assert_eq!(Decimal::percent(100).atomics, DECIMAL_FRACTIONAL);
    assert_eq!(
        Decimal::percent(u64::MAX).atomics,
        cosmwasm_std::Decimal::percent(u64::MAX).numerator()
    );
}

#[test]
fn amount_times_ratio_truncates() {
    assert_eq!(times(100, Decimal::percent(50)), 50);
    assert_eq!(times(3, Decimal::from_ratio(1, 3)), 0);
    assert_eq!(times(30, Decimal::from_ratio(1, 3)), 9);
    assert_eq!(times(0, Decimal::percent(50)), 0);
    assert_eq!(times(77, Decimal::zero()), 0);
    assert_eq!(
        times(123_456_789, Decimal::percent(37)),
        (Uint128::new(123_456_789) * cosmwasm_std::Decimal::percent(37)).u128()
    );
    assert_eq!(checked_mul_floor(u128::MAX, Decimal::percent(100)), Some(u128::MAX));
    assert_eq!(checked_mul_floor(u128::MAX, Decimal::percent(50)), Some(u128::MAX / 2));
    assert_eq!(checked_mul_floor(u128::MAX, Decimal::percent(101)), None);
}

#[test]
fn sum_of_ratios() {
    assert_eq!(
        Decimal::percent(50).checked_add(Decimal::percent(25)),
        Some(Decimal::percent(75))
    );
    assert_eq!(
        Decimal { atomics: u128::MAX - 1 }.checked_add(Decimal { atomics: 1 }),
        Some(Decimal { atomics: u128::MAX })
    );
    assert_eq!(Decimal { atomics: u128::MAX }.checked_add(Decimal { atomics: 1 }), None);
}

#[test]
fn amounts_are_written_in_decimal() {
    for amount in [0u128, 1, 9, 10, 11, 99, 100, 101, 1_000_000_000, u64::MAX as u128, u128::MAX] {
        assert_eq!(amount_text(amount), amount.to_string());
        assert_eq!(amount_text(amount), Uint128::new(amount).to_string());
    }
    assert_eq!(amount_text(u128::MAX), "340282366920938463463374607431768211455");
}

#[test]
fn event_names_the_action_and_the_amount() {
    let res = Response::event("fund", 1_050);
    assert!(res.messages.is_empty());
    let logs: Vec<cosmwasm_std::Attribute> =
        res.attributes.iter().map(|a| cosmwasm_std::attr(a.key.clone(), a.value.clone())).collect();
    assert_eq!(
        logs,
        vec![
            cosmwasm_std::attr("action", "fund"),
            cosmwasm_std::attr("amount", Uint128::new(1_050))
        ]
    );
    assert_eq!(Response::new(), Response::default());
    assert!(Response::new().attributes.is_empty());
}

use rust_decimal::Decimal;
use simple_money::amount::MAX_MANTISSA;
use simple_money::{Amount, Currency, Exchange, Money, MoneyError, RoundedEq};

fn amt(mantissa: i128, scale: u32) -> Amount {
    Amount { mantissa, scale }
}

fn cad(mantissa: i128, scale: u32) -> Money {
    Money { amount: amt(mantissa, scale), currency: Currency::CAD }
}

fn usd(mantissa: i128, scale: u32) -> Money {
    Money { amount: amt(mantissa, scale), currency: Currency::USD }
}

fn amount_from_dec(d: Decimal) -> Amount {
    Amount { mantissa: d.mantissa(), scale: d.scale() }
}

fn money_from_dec(d: Decimal, currency: Currency) -> Money {
    Money { amount: amount_from_dec(d), currency }
}

fn dec(mantissa: i64, scale: u32) -> Decimal {
    Decimal::new(mantissa, scale)
}

fn setup() -> Exchange {
    let mut exchange = Exchange::new();
    let rate = amt(13, 1);
    exchange.set_rate(Currency::USD, Currency::CAD, rate).unwrap();
    exchange
}

#[test]
fn can_compare_same_currencies() {
    let one = usd(1, 0);
    let two = usd(2, 0);

    assert_eq!(one < two, true);
    assert_eq!(two > one, true);
    assert_eq!(two == one, false);
    assert_eq!(two == two, true);
}

#[test]
fn can_compare_usd_amount_with_greater_cad_amount() {
    let exchange = setup();

    let usd_money = usd(1, 0);
    let cad_money = cad(2, 0);

    assert_eq!(exchange.lt(usd_money, cad_money).unwrap(), true);
    assert_eq!(exchange.lte(usd_money, cad_money).unwrap(), true);
    assert_eq!(exchange.eq(usd_money, cad_money).unwrap(), false);
    assert_eq!(exchange.gte(usd_money, cad_money).unwrap(), false);
    assert_eq!(exchange.gt(usd_money, cad_money).unwrap(), false);

    assert_eq!(exchange.lt(cad_money, usd_money).unwrap(), false);
    assert_eq!(exchange.lte(cad_money, usd_money).unwrap(), false);
    assert_eq!(exchange.eq(cad_money, usd_money).unwrap(), false);
    assert_eq!(exchange.gte(cad_money, usd_money).unwrap(), true);
    assert_eq!(exchange.gt(cad_money, usd_money).unwrap(), true);
}

#[test]
fn can_compare_usd_amount_with_less_cad_amount() {
    let exchange = setup();

    let usd_money = usd(2, 0);
    let cad_money = cad(1, 0);

    assert_eq!(exchange.lt(usd_money, cad_money).unwrap(), false);
    assert_eq!(exchange.lte(usd_money, cad_money).unwrap(), false);
    assert_eq!(exchange.eq(usd_money, cad_money).unwrap(), false);
    assert_eq!(exchange.gte(usd_money, cad_money).unwrap(), true);
    assert_eq!(exchange.gt(usd_money, cad_money).unwrap(), true);

    assert_eq!(exchange.lt(cad_money, usd_money).unwrap(), true);
    assert_eq!(exchange.lte(cad_money, usd_money).unwrap(), true);
    assert_eq!(exchange.eq(cad_money, usd_money).unwrap(), false);
    assert_eq!(exchange.gte(cad_money, usd_money).unwrap(), false);
    assert_eq!(exchange.gt(cad_money, usd_money).unwrap(), false);
}

#[test]
fn can_compare_usd_amount_with_equal_cad_amount() {
    let exchange = setup();

    let usd_money = usd(1, 0);
    let cad_money = cad(13, 1);

    assert_eq!(exchange.lt(usd_money, cad_money).unwrap(), false);
    assert_eq!(exchange.lte(usd_money, cad_money).unwrap(), true);
    assert_eq!(exchange.eq(usd_money, cad_money).unwrap(), true);
    assert_eq!(exchange.gte(usd_money, cad_money).unwrap(), true);
    assert_eq!(exchange.gt(usd_money, cad_money).unwrap(), false);

    assert_eq!(exchange.lt(cad_money, usd_money).unwrap(), false);
    assert_eq!(exchange.lte(cad_money, usd_money).unwrap(), true);
    assert_eq!(exchange.eq(cad_money, usd_money).unwrap(), true);
    assert_eq!(exchange.gte(cad_money, usd_money).unwrap(), true);
    assert_eq!(exchange.gt(cad_money, usd_money).unwrap(), false);
}

#[test]
fn can_clamp_with_value_less_than_range() {
    let exchange = setup();

    let input = usd(1, 0);
    let min = cad(2, 0);
    let max = cad(3, 0);

    let clamped_cad = exchange.clamp(input, min, max, Currency::CAD).unwrap();
    let clamped_usd = exchange.clamp(input, min, max, Currency::USD).unwrap();

    let expected_clamped_cad = cad(2, 0);
    let expected_clamped_usd_amount = dec(2, 0) * dec(1, 0) / dec(13, 1);
    let expected_clamped_usd = money_from_dec(expected_clamped_usd_amount, Currency::USD);

    assert!(clamped_cad.rounded_eq(expected_clamped_cad, 2));
    assert!(clamped_usd.rounded_eq(expected_clamped_usd, 2));
}

#[test]
fn can_clamp_with_value_within_range() {
    let exchange = setup();

    let input = cad(25, 1);
    let min = cad(2, 0);
    let max = cad(3, 0);

    let clamped_cad = exchange.clamp(input, min, max, Currency::CAD).unwrap();
    let clamped_usd = exchange.clamp(input, min, max, Currency::USD).unwrap();

    let expected_clamped_cad = cad(25, 1);
    let expected_usd_amount = dec(25, 1) * (dec(1, 0) / dec(13, 1));
    let expected_clamped_usd = money_from_dec(expected_usd_amount, Currency::USD);

    assert!(clamped_cad.rounded_eq(expected_clamped_cad, 2));
    assert!(clamped_usd.rounded_eq(expected_clamped_usd, 2));
}

#[test]
fn can_clamp_with_value_greater_than_range() {
    let exchange = setup();

    let input = cad(2, 0);
    let min = usd(0, 0);
    let max = usd(5, 1);

    let clamped_cad = exchange.clamp(input, min, max, Currency::CAD).unwrap();
    let clamped_usd = exchange.clamp(input, min, max, Currency::USD).unwrap();

    let expected_clamped_cad = cad(65, 2);
    let expected_clamped_usd = usd(5, 1);

    assert!(clamped_cad.rounded_eq(expected_clamped_cad, 2));
    assert!(clamped_usd.rounded_eq(expected_clamped_usd, 2));
}

#[test]
fn can_add_different_currencies_and_get_converted_result() {
    let exchange = setup();

    let first = cad(1, 0);
    let second = usd(1, 0);

    let sum_in_cad = exchange.add(first, second, Currency::CAD).unwrap();
    let sum_in_usd = exchange.add(first, second, Currency::USD).unwrap();

    let expected_cad_sum = cad(23, 1);
    let expected_usd_sum_amount = dec(1, 0) * dec(1, 0) / dec(13, 1) + dec(1, 0);
    let expected_usd_sum = money_from_dec(expected_usd_sum_amount, Currency::USD);

    assert!(sum_in_cad.rounded_eq(expected_cad_sum, 2));
    assert!(sum_in_usd.rounded_eq(expected_usd_sum, 2));
}

#[test]
fn can_add_same_currencies_and_get_converted_result() {
    let exchange = setup();

    let first = cad(1, 0);
    let second = cad(1, 0);

    let sum_in_cad = exchange.add(first, second, Currency::CAD).unwrap();
    let sum_in_usd = exchange.add(first, second, Currency::USD).unwrap();

    let expected_cad_sum = cad(2, 0);
    let expected_usd_sum_amount = dec(1, 0) * dec(1, 0) / dec(13, 1) * dec(2, 0);
    let expected_usd_sum = money_from_dec(expected_usd_sum_amount, Currency::USD);

    assert!(sum_in_cad.rounded_eq(expected_cad_sum, 2));
    assert!(sum_in_usd.rounded_eq(expected_usd_sum, 2));
}

#[test]
fn can_subtract_different_currencies_and_get_converted_result() {
    let exchange = setup();

    let first = cad(2, 0);
    let second = usd(1, 0);

    let diff_in_cad = exchange.sub(first, second, Currency::CAD).unwrap();
    let diff_in_usd = exchange.sub(first, second, Currency::USD).unwrap();

    let expected_cad_diff = cad(7, 1);
    let expected_usd_diff_amount = dec(2, 0) * dec(1, 0) / dec(13, 1) - dec(1, 0);
    let expected_usd_diff = money_from_dec(expected_usd_diff_amount, Currency::USD);

    assert!(diff_in_cad.rounded_eq(expected_cad_diff, 2));
    assert!(diff_in_usd.rounded_eq(expected_usd_diff, 2));
}

#[test]
fn can_subtract_same_currencies_and_get_converted_result() {
    let exchange = setup();

    let first = cad(2, 0);
    let second = cad(1, 0);

    let diff_in_cad = exchange.sub(first, second, Currency::CAD).unwrap();
    let diff_in_usd = exchange.sub(first, second, Currency::USD).unwrap();

    let expected_cad_diff = cad(1, 0);
    let expected_usd_diff_amount = dec(1, 0) * dec(1, 0) / dec(13, 1);
    let expected_usd_diff = money_from_dec(expected_usd_diff_amount, Currency::USD);

    assert!(diff_in_cad.rounded_eq(expected_cad_diff, 2));
    assert!(diff_in_usd.rounded_eq(expected_usd_diff, 2));
}

#[test]
fn registering_a_rate_registers_its_reciprocal() {
    let exchange = setup();

    let forward = exchange.get_rate(Currency::USD, Currency::CAD).unwrap();
    let reverse = exchange.get_rate(Currency::CAD, Currency::USD).unwrap();

    assert_eq!(forward, amt(13, 1));
    assert_eq!(reverse, amount_from_dec(dec(1, 0) / dec(13, 1)));
}

#[test]
fn get_rate_for_same_currency_is_one() {
    let exchange = Exchange::new();
    assert_eq!(exchange.get_rate(Currency::USD, Currency::USD).unwrap(), amt(1, 0));
}

#[test]
fn convert_to_own_currency_returns_money_unchanged() {
    let exchange = Exchange::new();
    let m = usd(12345, 2);
    let converted = exchange.convert(m, Currency::USD).unwrap();
    assert_eq!(converted.amount, m.amount);
    assert_eq!(converted, m);
}

#[test]
fn convert_multiplies_by_registered_rate() {
    let exchange = setup();
    let converted = exchange.convert(usd(1, 0), Currency::CAD).unwrap();
    assert_eq!(converted, cad(13, 1));
}

#[test]
fn round_trip_conversion_is_rounded_equal() {
    let exchange = setup();
    let m = usd(1, 0);
    let there = exchange.convert(m, Currency::CAD).unwrap();
    let back = exchange.convert(there, Currency::USD).unwrap();
    assert!(back.rounded_eq(m, 8));

    let n = cad(275, 2);
    let there = exchange.convert(n, Currency::USD).unwrap();
    let back = exchange.convert(there, Currency::CAD).unwrap();
    assert!(back.rounded_eq(n, 8));
}

#[test]
fn missing_rate_fails_every_cross_currency_operation() {
    let mut exchange = Exchange::new();

    assert_eq!(
        exchange.get_rate(Currency::USD, Currency::CAD).unwrap_err(),
        MoneyError::CouldNotFindExchangeRate
    );
    assert_eq!(
        exchange.convert(usd(1, 0), Currency::CAD).unwrap_err(),
        MoneyError::CouldNotFindExchangeRate
    );
    assert_eq!(
        exchange.lt(usd(1, 0), cad(2, 0)).unwrap_err(),
        MoneyError::CouldNotFindExchangeRate
    );
    assert_eq!(
        exchange.add(usd(1, 0), cad(2, 0), Currency::CAD).unwrap_err(),
        MoneyError::CouldNotFindExchangeRate
    );
    assert_eq!(
        exchange
            .clamp(usd(1, 0), cad(0, 0), cad(2, 0), Currency::CAD)
            .unwrap_err(),
        MoneyError::CouldNotFindExchangeRate
    );

    // A failed set_rate commits nothing either.
    assert_eq!(
        exchange.set_rate(Currency::USD, Currency::CAD, amt(0, 0)).unwrap_err(),
        MoneyError::InvalidRate
    );
    assert_eq!(
        exchange.get_rate(Currency::USD, Currency::CAD).unwrap_err(),
        MoneyError::CouldNotFindExchangeRate
    );
}

#[test]
fn set_rate_rejects_nonpositive_rates() {
    let mut exchange = Exchange::new();
    assert_eq!(
        exchange.set_rate(Currency::USD, Currency::CAD, amt(0, 0)).unwrap_err(),
        MoneyError::InvalidRate
    );
    assert_eq!(
        exchange.set_rate(Currency::USD, Currency::CAD, amt(-13, 1)).unwrap_err(),
        MoneyError::InvalidRate
    );
}

#[test]
fn set_rate_rejects_a_rate_whose_reciprocal_rounds_to_zero() {
    let mut exchange = Exchange::new();
    let huge = amt(MAX_MANTISSA, 0);
    assert_eq!(
        exchange.set_rate(Currency::USD, Currency::CAD, huge).unwrap_err(),
        MoneyError::InvalidRate
    );
    assert_eq!(
        exchange.get_rate(Currency::USD, Currency::CAD).unwrap_err(),
        MoneyError::CouldNotFindExchangeRate
    );
}

#[test]
fn conversion_overflow_is_reported() {
    let mut exchange = Exchange::new();
    exchange.set_rate(Currency::USD, Currency::CAD, amt(100, 0)).unwrap();
    let huge = usd(MAX_MANTISSA, 0);
    assert_eq!(
        exchange.convert(huge, Currency::CAD).unwrap_err(),
        MoneyError::AmountOutOfRange
    );
}

#[test]
fn set_rate_overwrites_both_directions() {
    let mut exchange = setup();
    exchange.set_rate(Currency::USD, Currency::CAD, amt(14, 1)).unwrap();
    assert_eq!(exchange.get_rate(Currency::USD, Currency::CAD).unwrap(), amt(14, 1));
    assert_eq!(
        exchange.get_rate(Currency::CAD, Currency::USD).unwrap(),
        amount_from_dec(dec(1, 0) / dec(14, 1))
    );
}

#[test]
fn money_clamp_covers_all_three_positions() {
    let lo = cad(2, 0);
    let hi = cad(3, 0);
    assert_eq!(cad(25, 1).clamp(lo, hi), cad(25, 1));
    assert_eq!(cad(1, 0).clamp(lo, hi), cad(2, 0));
    assert_eq!(cad(4, 0).clamp(lo, hi), cad(3, 0));
}

#[test]
fn money_same_currency_arithmetic_is_exact() {
    assert_eq!(cad(15, 1).add(cad(5, 1)).unwrap(), cad(2, 0));
    assert_eq!(cad(2, 0).sub(cad(5, 1)).unwrap(), cad(15, 1));
    assert_eq!(cad(2, 0).mul(amt(5, 1)).unwrap(), cad(1, 0));
}

#[test]
fn rounded_eq_rounds_half_to_even() {
    // 1.004 and 1.0049 both round to 1.00 at two digits; 1.006 rounds to 1.01.
    assert!(cad(1004, 3).rounded_eq(cad(10049, 4), 2));
    assert!(!cad(1004, 3).rounded_eq(cad(1006, 3), 2));
    // Different currencies are never rounded-equal.
    assert!(!cad(1, 0).rounded_eq(usd(1, 0), 2));
    // Ties go to the even neighbour: 1.005 -> 1.00 and 1.015 -> 1.02.
    assert!(cad(1005, 3).rounded_eq(cad(1, 0), 2));
    assert!(cad(1015, 3).rounded_eq(cad(102, 2), 2));
}

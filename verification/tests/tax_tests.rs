use simple_money::amount::MAX_MANTISSA;
use simple_money::{Amount, Currency, Money};
use simple_money::{TaxBracket, TaxDeduction, TaxDeductionCategory, TaxDeductionRule, TaxError,
    TaxSchedule};

fn amt(mantissa: i128, scale: u32) -> Amount {
    Amount { mantissa, scale }
}

fn cad(mantissa: i128, scale: u32) -> Money {
    Money { amount: amt(mantissa, scale), currency: Currency::CAD }
}

fn usd(mantissa: i128, scale: u32) -> Money {
    Money { amount: amt(mantissa, scale), currency: Currency::USD }
}

#[test]
fn simple_example() {
    let lowest = TaxBracket {
        min_money: cad(0, 0),
        max_money: Some(cad(10_000, 0)),
        rate: amt(1, 1),
    };
    let middle = TaxBracket {
        min_money: cad(10_000, 0),
        max_money: Some(cad(20_000, 0)),
        rate: amt(2, 1),
    };
    let highest = TaxBracket { min_money: cad(20_000, 0), max_money: None, rate: amt(3, 1) };

    let schedule = TaxSchedule::new(vec![lowest, middle, highest], Currency::CAD).unwrap();

    let over_highest_tax = schedule.calculate_tax(cad(25_000, 0)).unwrap();
    assert_eq!(over_highest_tax, cad(6_500, 0));

    let middle_tax = schedule.calculate_tax(cad(15_000, 0)).unwrap();
    assert_eq!(middle_tax, cad(2000, 0));

    let lowest_tax = schedule.calculate_tax(cad(5_000, 0)).unwrap();
    assert_eq!(lowest_tax, cad(500, 0));
}

#[test]
fn single_bracket_example() {
    let lowest = TaxBracket {
        min_money: cad(0, 0),
        max_money: Some(cad(10_000, 0)),
        rate: amt(1, 1),
    };

    let schedule = TaxSchedule::new(vec![lowest], Currency::CAD).unwrap();
    let tax = schedule.calculate_tax(cad(10_000, 0)).unwrap();

    assert_eq!(tax, cad(1000, 0));
}

#[test]
fn invalid_bracket_and_regime() {
    let invalid = TaxBracket::new(cad(0, 0), Some(usd(1, 0)), amt(1, 1)).unwrap_err();

    assert_eq!(invalid, TaxError::MismatchedCurrencies);

    let valid_bracket = TaxBracket::new(cad(0, 0), None, amt(1, 1)).unwrap();
    let invalid_schedule = TaxSchedule::new(vec![valid_bracket], Currency::USD).unwrap_err();

    assert_eq!(invalid_schedule, TaxError::MismatchedCurrencies);
}

#[test]
fn deductions_example() {
    let single = TaxBracket { min_money: cad(0, 0), max_money: None, rate: amt(1, 1) };
    let capital_gains_deduction = TaxDeductionRule {
        tax_deduction_type: TaxDeductionCategory::CapitalGains,
        max_amount: None,
        inclusion_rate: amt(5, 1),
    };

    let mut schedule = TaxSchedule::new(vec![single], Currency::CAD).unwrap();
    schedule.set_deduction(TaxDeductionCategory::CapitalGains, capital_gains_deduction);
    let actual_deductions = vec![TaxDeduction {
        tax_deduction_type: TaxDeductionCategory::CapitalGains,
        money_to_deduct: cad(5000, 0),
    }];
    let tax = schedule.calculate_tax_with_deductions(cad(10_000, 0), actual_deductions);

    match tax {
        Ok(result) => assert_eq!(result, cad(75000, 2)),
        Err(_) => assert!(false, "Tax should not be an Err"),
    }
}

#[test]
fn brackets_are_sorted_regardless_of_input_order() {
    let lowest = TaxBracket {
        min_money: cad(0, 0),
        max_money: Some(cad(10_000, 0)),
        rate: amt(1, 1),
    };
    let middle = TaxBracket {
        min_money: cad(10_000, 0),
        max_money: Some(cad(20_000, 0)),
        rate: amt(2, 1),
    };
    let highest = TaxBracket { min_money: cad(20_000, 0), max_money: None, rate: amt(3, 1) };

    let schedule = TaxSchedule::new(vec![highest, lowest, middle], Currency::CAD).unwrap();

    assert_eq!(schedule.calculate_tax(cad(25_000, 0)).unwrap(), cad(6_500, 0));
    assert_eq!(schedule.calculate_tax(cad(15_000, 0)).unwrap(), cad(2000, 0));
}

#[test]
fn income_below_bracket_contributes_nothing() {
    let bracket = TaxBracket {
        min_money: cad(1000, 0),
        max_money: Some(cad(2000, 0)),
        rate: amt(1, 1),
    };
    let tax = bracket.calculate_tax(cad(500, 0)).unwrap();
    assert_eq!(tax, cad(0, 0));
}

#[test]
fn deduction_claims_above_the_cap_are_capped() {
    let rule = TaxDeductionRule {
        tax_deduction_type: TaxDeductionCategory::CapitalGains,
        max_amount: Some(cad(1000, 0)),
        inclusion_rate: amt(5, 1),
    };

    let over = TaxDeduction {
        tax_deduction_type: TaxDeductionCategory::CapitalGains,
        money_to_deduct: cad(5000, 0),
    };
    assert_eq!(rule.apply_deduction(over).unwrap(), cad(500, 0));

    let under = TaxDeduction {
        tax_deduction_type: TaxDeductionCategory::CapitalGains,
        money_to_deduct: cad(800, 0),
    };
    assert_eq!(rule.apply_deduction(under).unwrap(), cad(400, 0));
}

#[test]
fn unregistered_deduction_category_fails() {
    let single = TaxBracket { min_money: cad(0, 0), max_money: None, rate: amt(1, 1) };
    let schedule = TaxSchedule::new(vec![single], Currency::CAD).unwrap();
    let claims = vec![TaxDeduction {
        tax_deduction_type: TaxDeductionCategory::EmployeeStockOptions,
        money_to_deduct: cad(100, 0),
    }];
    assert_eq!(
        schedule.calculate_tax_with_deductions(cad(10_000, 0), claims).unwrap_err(),
        TaxError::CouldNotFindDeduction
    );
}

#[test]
fn empty_schedule_taxes_nothing() {
    let schedule = TaxSchedule::new(vec![], Currency::CAD).unwrap();
    assert_eq!(schedule.calculate_tax(cad(25_000, 0)).unwrap(), cad(0, 0));
}

#[test]
fn no_claims_deduct_nothing() {
    let single = TaxBracket { min_money: cad(0, 0), max_money: None, rate: amt(1, 1) };
    let schedule = TaxSchedule::new(vec![single], Currency::CAD).unwrap();
    let tax = schedule.calculate_tax_with_deductions(cad(10_000, 0), vec![]).unwrap();
    assert_eq!(tax, cad(1000, 0));
}

#[test]
fn tax_overflow_is_reported() {
    let bracket = TaxBracket { min_money: cad(0, 0), max_money: None, rate: amt(100, 0) };
    let schedule = TaxSchedule::new(vec![bracket], Currency::CAD).unwrap();
    let huge = cad(MAX_MANTISSA, 0);
    assert_eq!(schedule.calculate_tax(huge).unwrap_err(), TaxError::AmountOutOfRange);
}

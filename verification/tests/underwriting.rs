use underwriting_core::decimal::Decimal;
use underwriting_core::services::underwriting::{
    apply_stress_test, calculate_underwriting, calculate_underwriting_from, recover,
    CalculationStep, InputSources, StressTestInput, UnderwritingInput, UnderwritingResult,
};

fn units(n: i64) -> Decimal {
    Decimal::from_units(n)
}

fn micros(m: i128) -> Decimal {
    Decimal::from_micros(m)
}

fn as_f64(d: Decimal) -> f64 {
    d.micros as f64 / 1_000_000.0
}

fn bare(collected_rent: i64, operating_expenses: i64) -> UnderwritingInput {
    UnderwritingInput {
        unit_count: None,
        occupancy_rate: None,
        gross_scheduled_rent: None,
        collected_rent: units(collected_rent),
        operating_expenses: units(operating_expenses),
        debt_service: None,
        property_value: None,
        mortgage_balance: None,
        interest_rate: None,
    }
}

fn full() -> UnderwritingInput {
    UnderwritingInput {
        unit_count: Some(10),
        occupancy_rate: Some(units(95)),
        gross_scheduled_rent: Some(units(120000)),
        collected_rent: units(114000),
        operating_expenses: units(45000),
        debt_service: Some(units(50000)),
        property_value: Some(units(1000000)),
        mortgage_balance: Some(units(700000)),
        interest_rate: Some(micros(4_500_000)),
    }
}

fn step_as_text(step: &CalculationStep) -> String {
    let inputs: Vec<String> = step
        .inputs
        .iter()
        .map(|(name, value)| format!("{}={}", name, value.micros))
        .collect();
    format!(
        "{} | {} | {} | {} | {}",
        step.metric,
        step.formula,
        inputs.join(","),
        step.result.micros,
        step.sources.len()
    )
}

fn trail_as_text(result: &UnderwritingResult) -> Vec<String> {
    result.audit_trail.iter().map(step_as_text).collect()
}

#[test]
fn test_basic_underwriting() {
    let input = UnderwritingInput {
        unit_count: Some(10),
        occupancy_rate: Some(units(95)),
        gross_scheduled_rent: Some(units(120000)),
        collected_rent: units(114000),
        operating_expenses: units(45000),
        debt_service: Some(units(50000)),
        property_value: Some(units(1000000)),
        mortgage_balance: Some(units(700000)),
        interest_rate: Some(Decimal::parse("4.5").unwrap()),
    };

    let result = calculate_underwriting(input);

    assert_eq!(as_f64(result.noi), 69000.0);
    assert!(result.dscr.is_some());
    assert_eq!(as_f64(result.dscr.unwrap()), 1.38);
    assert!(result.cash_flow_after_debt.is_some());
    assert_eq!(as_f64(result.cash_flow_after_debt.unwrap()), 19000.0);
    assert!(result.cap_rate.is_some());
    assert_eq!(as_f64(result.cap_rate.unwrap()), 6.9);
    assert!(result.ltv.is_some());
    assert_eq!(as_f64(result.ltv.unwrap()), 70.0);
}

#[test]
fn underwriting_test_low_dscr_warning() {
    let input = UnderwritingInput {
        unit_count: None,
        occupancy_rate: None,
        gross_scheduled_rent: None,
        collected_rent: units(60000),
        operating_expenses: units(45000),
        debt_service: Some(units(20000)),
        property_value: None,
        mortgage_balance: None,
        interest_rate: None,
    };

    let result = calculate_underwriting(input);

    assert!(result.warnings.iter().any(|w| w.contains("DSCR")));
}

#[test]
fn test_stress_test() {
    let base_input = UnderwritingInput {
        unit_count: None,
        occupancy_rate: None,
        gross_scheduled_rent: None,
        collected_rent: units(100000),
        operating_expenses: units(40000),
        debt_service: Some(units(45000)),
        property_value: None,
        mortgage_balance: None,
        interest_rate: None,
    };

    let base_result = calculate_underwriting(base_input);

    let stress_input = StressTestInput {
        base_result: base_result.clone(),
        occupancy_adjustment: None,
        rent_adjustment: Some(units(-10)),
        expense_adjustment: Some(units(5)),
        interest_rate_adjustment: None,
    };

    let stress_result = apply_stress_test(stress_input);

    assert!(stress_result.stressed_noi.micros < base_result.noi.micros);
    assert!(stress_result.comparison.noi_change.micros < 0);
}

#[test]
fn full_input_gives_every_figure_exactly() {
    let result = calculate_underwriting(full());
    assert_eq!(result.noi, units(69000));
    assert_eq!(result.dscr, Some(micros(1_380_000)));
    assert_eq!(result.cash_flow_after_debt, Some(units(19000)));
    assert_eq!(result.cap_rate, Some(micros(6_900_000)));
    assert_eq!(result.ltv, Some(units(70)));
    assert_eq!(result.gross_rent_multiplier, Some(micros(8_333_333)));
    assert!(result.warnings.is_empty());
}

#[test]
fn audit_trail_lists_the_steps_in_the_order_of_derivation() {
    let result = calculate_underwriting(full());
    assert_eq!(
        trail_as_text(&result),
        vec![
            "NOI (Net Operating Income) | Collected Rent - Operating Expenses | Collected Rent=114000000000,Operating Expenses=45000000000 | 69000000000 | 0",
            "DSCR (Debt Service Coverage Ratio) | NOI / Annual Debt Service | NOI=69000000000,Annual Debt Service=50000000000 | 1380000 | 0",
            "Cash Flow After Debt | NOI - Annual Debt Service | NOI=69000000000,Annual Debt Service=50000000000 | 19000000000 | 0",
            "Cap Rate | (NOI / Property Value) * 100 | NOI=69000000000,Property Value=1000000000000 | 6900000 | 0",
            "LTV (Loan-to-Value) | (Mortgage Balance / Property Value) * 100 | Mortgage Balance=700000000000,Property Value=1000000000000 | 70000000 | 0",
            "Gross Rent Multiplier | Property Value / Gross Scheduled Rent | Property Value=1000000000000,Gross Scheduled Rent=120000000000 | 8333333 | 0",
        ]
    );
}

#[test]
fn noi_is_the_first_step_whatever_else_is_given() {
    for input in [bare(100, 40), bare(0, 0), bare(40, 100), full()] {
        let result = calculate_underwriting(input);
        assert_eq!(
            result.noi.micros,
            input.collected_rent.micros - input.operating_expenses.micros
        );
        assert_eq!(result.audit_trail[0].metric, "NOI (Net Operating Income)");
        assert_eq!(result.audit_trail[0].result, result.noi);
    }
}

#[test]
fn the_same_input_gives_the_same_result() {
    let first = calculate_underwriting(full());
    let second = calculate_underwriting(full());
    assert_eq!(trail_as_text(&first), trail_as_text(&second));
    assert_eq!(first.warnings, second.warnings);
    assert_eq!(first.noi, second.noi);
    assert_eq!(first.dscr, second.dscr);
    assert_eq!(first.cash_flow_after_debt, second.cash_flow_after_debt);
    assert_eq!(first.cap_rate, second.cap_rate);
    assert_eq!(first.ltv, second.ltv);
    assert_eq!(first.gross_rent_multiplier, second.gross_rent_multiplier);
}

#[test]
fn more_debt_service_means_less_coverage_and_less_cash_flow() {
    let mut low = bare(114000, 45000);
    low.debt_service = Some(units(50000));
    let mut high = low;
    high.debt_service = Some(units(50001));
    let a = calculate_underwriting(low);
    let b = calculate_underwriting(high);
    assert!(b.dscr.unwrap().micros < a.dscr.unwrap().micros);
    assert!(b.cash_flow_after_debt.unwrap().micros < a.cash_flow_after_debt.unwrap().micros);
    assert_eq!(a.dscr, Some(micros(1_380_000)));
    assert_eq!(b.dscr, Some(micros(1_379_972)));
}

#[test]
fn a_millionth_more_debt_service_may_leave_the_rounded_coverage_as_it_is() {
    let mut low = bare(1, 0);
    low.debt_service = Some(units(3));
    let mut high = low;
    high.debt_service = Some(micros(3_000_001));
    let a = calculate_underwriting(low);
    let b = calculate_underwriting(high);
    assert_eq!(a.dscr, Some(micros(333_333)));
    assert_eq!(b.dscr, Some(micros(333_333)));
    assert!(b.cash_flow_after_debt.unwrap().micros < a.cash_flow_after_debt.unwrap().micros);
}

#[test]
fn without_debt_service_there_is_no_coverage_and_a_note_says_so() {
    let result = calculate_underwriting(bare(114000, 45000));
    assert_eq!(result.dscr, None);
    assert_eq!(result.cash_flow_after_debt, None);
    assert_eq!(
        result.warnings,
        vec![
            "Note: Debt service not provided - DSCR cannot be calculated",
            "Note: Property value not provided - Cap Rate and LTV cannot be calculated",
        ]
    );
    assert_eq!(result.audit_trail.len(), 1);
}

#[test]
fn low_coverage_is_critical() {
    let mut input = bare(60000, 45000);
    input.debt_service = Some(units(20000));
    let result = calculate_underwriting(input);
    assert_eq!(result.dscr, Some(micros(750_000)));
    assert_eq!(result.cash_flow_after_debt, Some(units(-5000)));
    assert_eq!(
        result.warnings,
        vec![
            "Critical: DSCR of 0.75 is below 1.0 - property cannot cover debt service",
            "Critical: Negative cash flow of $5000.00",
            "Note: Property value not provided - Cap Rate and LTV cannot be calculated",
        ]
    );
}

#[test]
fn coverage_between_one_and_one_and_a_quarter_draws_a_warning() {
    let mut input = bare(110, 0);
    input.debt_service = Some(units(100));
    let result = calculate_underwriting(input);
    assert_eq!(
        result.warnings[0],
        "Warning: DSCR of 1.10 is below recommended 1.25 threshold"
    );
    let mut at_one = bare(100, 0);
    at_one.debt_service = Some(units(100));
    assert_eq!(
        calculate_underwriting(at_one).warnings[0],
        "Warning: DSCR of 1.00 is below recommended 1.25 threshold"
    );
    let mut at_threshold = bare(125, 0);
    at_threshold.debt_service = Some(units(100));
    assert_eq!(
        calculate_underwriting(at_threshold).warnings,
        vec!["Note: Property value not provided - Cap Rate and LTV cannot be calculated"]
    );
}

#[test]
fn debt_service_that_is_not_positive_gives_a_coverage_of_zero() {
    let mut input = bare(100, 40);
    input.debt_service = Some(units(0));
    let result = calculate_underwriting(input);
    assert_eq!(result.dscr, Some(Decimal::zero()));
    assert_eq!(result.cash_flow_after_debt, Some(units(60)));
    assert_eq!(
        result.warnings[0],
        "Critical: DSCR of 0.00 is below 1.0 - property cannot cover debt service"
    );
    input.debt_service = Some(units(-10));
    let negative = calculate_underwriting(input);
    assert_eq!(negative.dscr, Some(Decimal::zero()));
    assert_eq!(negative.cash_flow_after_debt, Some(units(70)));
}

#[test]
fn negative_noi_gives_negative_coverage_rounded_down() {
    let mut input = bare(0, 1);
    input.debt_service = Some(units(3));
    let result = calculate_underwriting(input);
    assert_eq!(result.noi, units(-1));
    assert_eq!(result.dscr, Some(micros(-333_334)));
    assert_eq!(
        result.warnings[0],
        "Critical: DSCR of -0.33 is below 1.0 - property cannot cover debt service"
    );
    assert_eq!(result.warnings[1], "Critical: Negative cash flow of $4.00");
}

#[test]
fn cap_rate_and_ltv_need_a_positive_property_value() {
    let mut input = bare(100, 40);
    input.property_value = Some(units(0));
    input.mortgage_balance = Some(units(50));
    let result = calculate_underwriting(input);
    assert_eq!(result.cap_rate, None);
    assert_eq!(result.ltv, None);
    assert_eq!(result.audit_trail.len(), 1);
    assert_eq!(
        result.warnings,
        vec!["Note: Debt service not provided - DSCR cannot be calculated"]
    );
    input.property_value = Some(units(-5));
    let negative = calculate_underwriting(input);
    assert_eq!(negative.cap_rate, None);
    assert_eq!(negative.ltv, None);
}

#[test]
fn cap_rate_notes_come_below_four_and_above_twelve() {
    let mut input = bare(39, 0);
    input.property_value = Some(units(1000));
    let low = calculate_underwriting(input);
    assert_eq!(low.cap_rate, Some(micros(3_900_000)));
    assert_eq!(low.warnings[0], "Note: Cap rate of 3.90% is relatively low");

    input.collected_rent = units(40);
    assert_eq!(calculate_underwriting(input).warnings.len(), 1);
    input.collected_rent = units(120);
    assert_eq!(calculate_underwriting(input).warnings.len(), 1);

    input.collected_rent = units(121);
    let high = calculate_underwriting(input);
    assert_eq!(high.cap_rate, Some(micros(12_100_000)));
    assert_eq!(
        high.warnings[0],
        "Note: Cap rate of 12.10% is relatively high - may indicate higher risk"
    );
}

#[test]
fn ltv_above_eighty_draws_a_warning() {
    let mut input = bare(100, 40);
    input.property_value = Some(units(1000));
    input.mortgage_balance = Some(units(800));
    let at = calculate_underwriting(input);
    assert_eq!(at.ltv, Some(units(80)));
    assert!(!at.warnings.iter().any(|w| w.contains("LTV")));
    input.mortgage_balance = Some(micros(800_010_000));
    let above = calculate_underwriting(input);
    assert_eq!(above.ltv, Some(micros(80_001_000)));
    assert!(above.warnings.contains(&"Warning: LTV of 80.00% is above 80%".to_string()));
    input.mortgage_balance = Some(units(900));
    assert!(calculate_underwriting(input)
        .warnings
        .contains(&"Warning: LTV of 90.00% is above 80%".to_string()));
}

#[test]
fn gross_rent_multiplier_needs_a_positive_rent_and_a_property_value() {
    let mut input = bare(100, 40);
    input.property_value = Some(units(1000));
    input.gross_scheduled_rent = Some(units(0));
    assert_eq!(calculate_underwriting(input).gross_rent_multiplier, None);
    input.gross_scheduled_rent = Some(units(3));
    assert_eq!(
        calculate_underwriting(input).gross_rent_multiplier,
        Some(micros(333_333_333))
    );
    input.property_value = None;
    assert_eq!(calculate_underwriting(input).gross_rent_multiplier, None);
    input.property_value = Some(units(-9));
    assert_eq!(
        calculate_underwriting(input).gross_rent_multiplier,
        Some(units(-3))
    );
    assert_eq!(calculate_underwriting(input).cap_rate, None);
}

#[test]
fn figures_at_the_limit_are_still_exact() {
    let mut input = bare(1_000_000_000_000, -1_000_000_000_000);
    assert!(input.is_in_range());
    input.debt_service = Some(micros(1));
    input.property_value = Some(micros(1));
    input.mortgage_balance = Some(units(1_000_000_000_000));
    let result = calculate_underwriting(input);
    assert_eq!(result.noi.micros, 2_000_000_000_000_000_000);
    assert_eq!(
        result.dscr.unwrap().micros,
        2_000_000_000_000_000_000_000_000
    );
    assert_eq!(
        result.cap_rate.unwrap().micros,
        200_000_000_000_000_000_000_000_000
    );
    assert_eq!(
        result.ltv.unwrap().micros,
        100_000_000_000_000_000_000_000_000
    );
    let beyond = bare(1_000_000_000_001, 0);
    assert!(!beyond.is_in_range());
}

#[test]
fn stress_test_recomputes_from_the_recorded_inputs() {
    let mut base_input = bare(100000, 40000);
    base_input.debt_service = Some(units(45000));
    let base_result = calculate_underwriting(base_input);
    let input = StressTestInput {
        base_result,
        occupancy_adjustment: None,
        rent_adjustment: Some(units(-10)),
        expense_adjustment: Some(units(5)),
        interest_rate_adjustment: None,
    };
    assert!(input.is_in_range());
    let result = apply_stress_test(input);
    assert_eq!(result.stressed_noi, units(48000));
    assert_eq!(result.stressed_dscr, Some(micros(1_066_666)));
    assert_eq!(result.stressed_cash_flow, Some(units(3000)));
    assert_eq!(result.comparison.noi_change, units(-12000));
    assert_eq!(result.comparison.noi_change_pct, units(-20));
    assert_eq!(result.comparison.dscr_change, Some(micros(1_066_666 - 1_333_333)));
    assert_eq!(result.comparison.cash_flow_change, Some(units(-12000)));
}

#[test]
fn stress_test_moves_debt_service_with_the_rate() {
    let mut base_input = bare(100000, 40000);
    base_input.debt_service = Some(units(45000));
    let input = StressTestInput {
        base_result: calculate_underwriting(base_input),
        occupancy_adjustment: Some(units(-50)),
        rent_adjustment: None,
        expense_adjustment: None,
        interest_rate_adjustment: Some(units(100)),
    };
    let result = apply_stress_test(input);
    assert_eq!(result.stressed_noi, units(60000));
    assert_eq!(result.stressed_cash_flow, Some(units(60000 - 45450)));
    assert_eq!(result.stressed_dscr, Some(micros(1_320_132)));
    assert_eq!(result.comparison.noi_change, Decimal::zero());
    assert_eq!(result.comparison.noi_change_pct, Decimal::zero());
    assert_eq!(result.comparison.cash_flow_change, Some(units(-450)));
}

#[test]
fn stress_test_without_debt_service_has_no_coverage() {
    let input = StressTestInput {
        base_result: calculate_underwriting(bare(100, 40)),
        occupancy_adjustment: None,
        rent_adjustment: Some(units(10)),
        expense_adjustment: None,
        interest_rate_adjustment: Some(units(25)),
    };
    let result = apply_stress_test(input);
    assert_eq!(result.stressed_noi, units(70));
    assert_eq!(result.stressed_dscr, None);
    assert_eq!(result.stressed_cash_flow, Some(units(70)));
    assert_eq!(result.comparison.dscr_change, None);
    assert_eq!(result.comparison.cash_flow_change, None);
    assert_eq!(result.comparison.noi_change_pct, micros(16_666_666));
}

#[test]
fn stress_test_with_a_base_noi_of_zero_reports_no_percentage() {
    let input = StressTestInput {
        base_result: calculate_underwriting(bare(50, 50)),
        occupancy_adjustment: None,
        rent_adjustment: Some(units(10)),
        expense_adjustment: None,
        interest_rate_adjustment: None,
    };
    let result = apply_stress_test(input);
    assert_eq!(result.stressed_noi, units(5));
    assert_eq!(result.comparison.noi_change, units(5));
    assert_eq!(result.comparison.noi_change_pct, Decimal::zero());
}

#[test]
fn stress_test_depends_on_the_labels_of_the_audit_trail() {
    let mut base_input = bare(100000, 40000);
    base_input.debt_service = Some(units(45000));
    let mut base_result = calculate_underwriting(base_input);
    assert_eq!(recover(&base_result.audit_trail, "Collected Rent"), units(100000));
    assert_eq!(recover(&base_result.audit_trail, "Operating Expenses"), units(40000));
    assert_eq!(recover(&base_result.audit_trail, "Annual Debt Service"), units(45000));
    assert_eq!(recover(&base_result.audit_trail, "collected rent"), Decimal::zero());

    base_result.audit_trail[0].inputs[0].0 = "Rent".to_string();
    let input = StressTestInput {
        base_result,
        occupancy_adjustment: None,
        rent_adjustment: None,
        expense_adjustment: None,
        interest_rate_adjustment: None,
    };
    let result = apply_stress_test(input);
    assert_eq!(result.stressed_noi, units(-40000));
}

#[test]
fn stress_test_reads_the_value_recorded_last() {
    let mut base_result = calculate_underwriting(bare(100, 40));
    base_result.audit_trail.push(CalculationStep {
        metric: "Revision".to_string(),
        formula: "".to_string(),
        inputs: vec![
            ("Collected Rent".to_string(), units(200)),
            ("Collected Rent".to_string(), units(300)),
        ],
        result: Decimal::zero(),
        sources: vec![],
    });
    assert_eq!(recover(&base_result.audit_trail, "Collected Rent"), units(300));
}

#[test]
fn stress_input_out_of_range_is_told_apart() {
    let mut base_result = calculate_underwriting(bare(100, 40));
    base_result.audit_trail[0].inputs[0].1 = micros(1_000_000_000_000_000_001);
    let input = StressTestInput {
        base_result,
        occupancy_adjustment: None,
        rent_adjustment: None,
        expense_adjustment: None,
        interest_rate_adjustment: None,
    };
    assert!(!input.is_in_range());
}

#[test]
fn sources_change_nothing_but_the_sources() {
    let mut sources = InputSources::none();
    sources.collected_rent = Some("fact-rent".to_string());
    sources.property_value = Some("fact-value".to_string());
    let plain = calculate_underwriting(full());
    let sourced = calculate_underwriting_from(full(), &sources);
    assert_eq!(plain.noi, sourced.noi);
    assert_eq!(plain.dscr, sourced.dscr);
    assert_eq!(plain.warnings, sourced.warnings);
    assert_eq!(plain.audit_trail.len(), sourced.audit_trail.len());
    for (a, b) in plain.audit_trail.iter().zip(sourced.audit_trail.iter()) {
        assert_eq!(a.metric, b.metric);
        assert_eq!(a.inputs, b.inputs);
        assert_eq!(a.result, b.result);
        assert!(a.sources.is_empty());
    }
    let listed: Vec<Vec<String>> = sourced.audit_trail.iter().map(|s| s.sources.clone()).collect();
    assert_eq!(
        listed,
        vec![
            vec!["fact-rent".to_string()],
            vec!["fact-rent".to_string()],
            vec!["fact-rent".to_string()],
            vec!["fact-rent".to_string(), "fact-value".to_string()],
            vec!["fact-value".to_string()],
            vec!["fact-value".to_string()],
        ]
    );
    let same = calculate_underwriting_from(full(), &InputSources::none());
    assert_eq!(trail_as_text(&same), trail_as_text(&plain));
}

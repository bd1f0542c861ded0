use underwriting_core::decimal::Decimal;
use underwriting_core::models::fact::Fact;
use underwriting_core::services::deal_agent::{
    analyze_deal, analyze_leverage_ratios, analyze_underwriting_metrics, check_fact_quality,
    check_missing_documents, count_low_confidence, count_unlocked, has_fact_type,
    AgentRecommendation, Severity,
};
use underwriting_core::services::underwriting::UnderwritingResult;

fn units(n: i64) -> Decimal {
    Decimal::from_units(n)
}

fn micros(m: i128) -> Decimal {
    Decimal::from_micros(m)
}

fn fact(fact_type: &str, locked: bool, confidence: Option<i128>) -> Fact {
    Fact {
        fact_id: "f".to_string(),
        document_id: "d".to_string(),
        deal_id: "deal".to_string(),
        fact_type: fact_type.to_string(),
        label: "label".to_string(),
        value: "1".to_string(),
        unit: None,
        source_citation: None,
        status: "approved".to_string(),
        confidence_score: confidence.map(micros),
        approved_at: None,
        approved_by: None,
        locked,
        created_at: 0,
    }
}

fn complete_facts() -> Vec<Fact> {
    [
        "collected_rent",
        "operating_expenses",
        "debt_service",
        "property_value",
        "unit_count",
        "occupancy_rate",
    ]
    .iter()
    .map(|t| fact(t, true, Some(900_000)))
    .collect()
}

fn result(
    noi: Decimal,
    dscr: Option<Decimal>,
    cash_flow: Option<Decimal>,
    cap_rate: Option<Decimal>,
    ltv: Option<Decimal>,
) -> UnderwritingResult {
    UnderwritingResult {
        noi,
        dscr,
        cash_flow_after_debt: cash_flow,
        cap_rate,
        ltv,
        gross_rent_multiplier: None,
        audit_trail: vec![],
        warnings: vec![],
    }
}

fn brief(r: &AgentRecommendation) -> String {
    format!("{:?} | {} | {}", r.severity, r.category, r.message)
}

fn briefs(list: &[AgentRecommendation]) -> Vec<String> {
    list.iter().map(brief).collect()
}

#[test]
fn deal_agent_test_low_dscr_warning() {
    let uw = UnderwritingResult {
        noi: units(50000),
        dscr: Some(micros(1_100_000)),
        cash_flow_after_debt: Some(units(5000)),
        cap_rate: Some(units(6)),
        ltv: Some(units(75)),
        gross_rent_multiplier: None,
        audit_trail: vec![],
        warnings: vec![],
    };

    let recommendations = analyze_underwriting_metrics(&uw);

    assert!(recommendations
        .iter()
        .any(|r| matches!(r.severity, Severity::Warning) && r.category == "Debt Coverage"));
}

#[test]
fn test_negative_cash_flow() {
    let uw = UnderwritingResult {
        noi: units(50000),
        dscr: Some(micros(800_000)),
        cash_flow_after_debt: Some(units(-10000)),
        cap_rate: None,
        ltv: None,
        gross_rent_multiplier: None,
        audit_trail: vec![],
        warnings: vec![],
    };

    let recommendations = analyze_underwriting_metrics(&uw);

    assert!(recommendations
        .iter()
        .any(|r| matches!(r.severity, Severity::Critical) && r.category == "Cash Flow"));
}

#[test]
fn missing_rent_always_draws_a_critical_recommendation() {
    let none: Vec<Fact> = vec![];
    let without_rent: Vec<Fact> = complete_facts()
        .into_iter()
        .filter(|f| f.fact_type != "collected_rent")
        .collect();
    let uw = result(units(1), Some(units(2)), Some(units(9000)), Some(units(5)), Some(units(70)));
    for facts in [&none, &without_rent] {
        for underwriting in [None, Some(&uw)] {
            let recommendations = analyze_deal(facts, underwriting);
            assert!(recommendations
                .iter()
                .any(|r| r.severity == Severity::Critical && r.category == "Missing Data"));
            assert_eq!(
                brief(&recommendations[0]),
                "Critical | Missing Data | No rental income data found"
            );
        }
    }
}

#[test]
fn missing_data_check_names_each_absent_kind_in_order() {
    let recommendations = check_missing_documents(&[]);
    assert_eq!(
        briefs(&recommendations),
        vec![
            "Critical | Missing Data | No rental income data found",
            "Critical | Missing Data | No operating expenses data found",
            "Warning | Missing Data | No mortgage or debt service information found",
            "Info | Missing Data | No property value found",
            "Info | Missing Data | No unit count information found",
            "Info | Missing Data | No occupancy rate found",
        ]
    );
    assert_eq!(
        recommendations[0].recommended_action.as_deref(),
        Some("Upload rent roll or P&L statement showing collected rent")
    );
    assert_eq!(
        recommendations[0].details.as_deref(),
        Some("Collected rent is essential for calculating NOI and evaluating property performance")
    );
    assert_eq!(
        recommendations[5].details.as_deref(),
        Some("Occupancy rate is important for understanding property performance and risk")
    );
}

#[test]
fn missing_data_check_is_silent_where_nothing_is_missing() {
    assert!(check_missing_documents(&complete_facts()).is_empty());
}

#[test]
fn either_mortgage_balance_or_debt_service_will_do() {
    for kind in ["mortgage_balance", "debt_service"] {
        let facts = vec![fact(kind, true, None)];
        let recommendations = check_missing_documents(&facts);
        assert!(!recommendations
            .iter()
            .any(|r| r.message == "No mortgage or debt service information found"));
        assert_eq!(recommendations.len(), 5);
    }
}

#[test]
fn fact_types_are_told_by_their_exact_name() {
    let facts = vec![fact("Collected_Rent", true, None), fact("unit_count", true, None)];
    assert!(!has_fact_type(&facts, "collected_rent"));
    assert!(has_fact_type(&facts, "unit_count"));
    assert!(!has_fact_type(&[], "unit_count"));
}

#[test]
fn dscr_rules_have_their_thresholds() {
    let at = |m: i128| {
        briefs(&analyze_underwriting_metrics(&result(
            units(1),
            Some(micros(m)),
            None,
            None,
            None,
        )))
    };
    assert_eq!(
        at(999_999),
        vec!["Critical | Debt Coverage | DSCR of 1.00 is below 1.0 - property cannot cover debt service"]
    );
    assert_eq!(
        at(1_000_000),
        vec!["Warning | Debt Coverage | DSCR of 1.00 is below recommended 1.25 threshold"]
    );
    assert_eq!(
        at(1_249_999),
        vec!["Warning | Debt Coverage | DSCR of 1.25 is below recommended 1.25 threshold"]
    );
    assert!(at(1_250_000).is_empty());
    assert!(at(1_499_999).is_empty());
    assert_eq!(
        at(1_500_000),
        vec!["Info | Debt Coverage | Strong DSCR of 1.50 provides good safety margin"]
    );
    assert_eq!(
        at(-500_000),
        vec!["Critical | Debt Coverage | DSCR of -0.50 is below 1.0 - property cannot cover debt service"]
    );
}

#[test]
fn strong_dscr_has_no_action() {
    let recommendations =
        analyze_underwriting_metrics(&result(units(1), Some(units(2)), None, None, None));
    assert_eq!(recommendations[0].recommended_action, None);
    assert_eq!(
        recommendations[0].details.as_deref(),
        Some("Property has healthy cash flow to cover debt service with room for unexpected expenses")
    );
}

#[test]
fn negative_noi_is_critical() {
    let recommendations =
        analyze_underwriting_metrics(&result(micros(-1_234_567_000), None, None, None, None));
    assert_eq!(
        briefs(&recommendations),
        vec!["Critical | Operating Performance | Negative NOI of $1234.57 indicates operating loss"]
    );
    assert!(analyze_underwriting_metrics(&result(Decimal::zero(), None, None, None, None))
        .is_empty());
}

#[test]
fn cash_flow_rules_have_their_thresholds() {
    let at = |m: i128| {
        briefs(&analyze_underwriting_metrics(&result(
            units(1),
            None,
            Some(micros(m)),
            None,
            None,
        )))
    };
    assert_eq!(
        at(-10_000_000_000),
        vec!["Critical | Cash Flow | Negative cash flow of $10000.00 per year"]
    );
    assert_eq!(
        at(0),
        vec!["Warning | Cash Flow | Low cash flow provides minimal safety margin"]
    );
    assert_eq!(
        at(4_999_999_999),
        vec!["Warning | Cash Flow | Low cash flow provides minimal safety margin"]
    );
    assert!(at(5_000_000_000).is_empty());
}

#[test]
fn cap_rate_rules_have_their_thresholds() {
    let at = |m: i128| {
        briefs(&analyze_underwriting_metrics(&result(
            units(1),
            None,
            None,
            Some(micros(m)),
            None,
        )))
    };
    assert_eq!(
        at(2_990_000),
        vec!["Warning | Returns | Low cap rate of 2.99% suggests limited income potential"]
    );
    assert!(at(3_000_000).is_empty());
    assert!(at(10_000_000).is_empty());
    assert_eq!(
        at(10_010_000),
        vec!["Warning | Returns | High cap rate of 10.01% may indicate higher risk"]
    );
}

#[test]
fn metric_check_lists_dscr_noi_cash_flow_and_cap_rate_in_that_order() {
    let recommendations = analyze_underwriting_metrics(&result(
        units(-5),
        Some(micros(500_000)),
        Some(units(-15)),
        Some(units(1)),
        Some(units(90)),
    ));
    assert_eq!(
        briefs(&recommendations),
        vec![
            "Critical | Debt Coverage | DSCR of 0.50 is below 1.0 - property cannot cover debt service",
            "Critical | Operating Performance | Negative NOI of $5.00 indicates operating loss",
            "Critical | Cash Flow | Negative cash flow of $15.00 per year",
            "Warning | Returns | Low cap rate of 1.00% suggests limited income potential",
        ]
    );
}

#[test]
fn leverage_rules_have_their_thresholds() {
    let at = |m: i128| {
        briefs(&analyze_leverage_ratios(&result(
            units(1),
            None,
            None,
            None,
            Some(micros(m)),
        )))
    };
    assert_eq!(
        at(85_010_000),
        vec!["Warning | Leverage | LTV of 85.01% exceeds 85% threshold"]
    );
    assert_eq!(at(85_000_000), vec!["Info | Leverage | LTV of 85.00% is above 80%"]);
    assert_eq!(at(80_010_000), vec!["Info | Leverage | LTV of 80.01% is above 80%"]);
    assert!(at(80_000_000).is_empty());
    assert!(at(60_000_000).is_empty());
    assert_eq!(at(59_990_000), vec!["Info | Leverage | Conservative LTV of 59.99%"]);
    assert!(analyze_leverage_ratios(&result(units(1), None, None, None, None)).is_empty());
}

#[test]
fn fact_quality_counts_unlocked_and_low_confidence_facts() {
    let facts = vec![
        fact("a", false, Some(699_999)),
        fact("b", true, Some(700_000)),
        fact("c", false, None),
        fact("d", true, Some(0)),
        fact("e", false, Some(950_000)),
    ];
    assert_eq!(count_unlocked(&facts), 3);
    assert_eq!(count_low_confidence(&facts), 2);
    let recommendations = check_fact_quality(&facts);
    assert_eq!(
        briefs(&recommendations),
        vec![
            "Warning | Data Quality | 3 facts pending approval",
            "Info | Data Quality | 2 facts have low confidence scores",
        ]
    );
    assert_eq!(
        recommendations[1].recommended_action.as_deref(),
        Some("Manually verify facts with confidence below 70%")
    );
}

#[test]
fn fact_quality_is_silent_on_locked_facts_of_good_confidence() {
    assert!(check_fact_quality(&complete_facts()).is_empty());
    assert!(check_fact_quality(&[]).is_empty());
    let twelve: Vec<Fact> = (0..12).map(|_| fact("x", false, None)).collect();
    assert_eq!(
        briefs(&check_fact_quality(&twelve)),
        vec!["Warning | Data Quality | 12 facts pending approval"]
    );
}

#[test]
fn analysis_lists_the_four_checks_one_after_the_other() {
    let facts = vec![fact("collected_rent", false, Some(100_000))];
    let uw = result(
        units(10),
        Some(micros(1_100_000)),
        Some(units(100)),
        Some(units(11)),
        Some(units(50)),
    );
    let with = analyze_deal(&facts, Some(&uw));
    assert_eq!(
        briefs(&with),
        vec![
            "Critical | Missing Data | No operating expenses data found",
            "Warning | Missing Data | No mortgage or debt service information found",
            "Info | Missing Data | No property value found",
            "Info | Missing Data | No unit count information found",
            "Info | Missing Data | No occupancy rate found",
            "Warning | Debt Coverage | DSCR of 1.10 is below recommended 1.25 threshold",
            "Warning | Cash Flow | Low cash flow provides minimal safety margin",
            "Warning | Returns | High cap rate of 11.00% may indicate higher risk",
            "Info | Leverage | Conservative LTV of 50.00%",
            "Warning | Data Quality | 1 facts pending approval",
            "Info | Data Quality | 1 facts have low confidence scores",
        ]
    );
    let without = analyze_deal(&facts, None);
    assert_eq!(without.len(), 7);
    assert_eq!(brief(&without[5]), "Warning | Data Quality | 1 facts pending approval");
}

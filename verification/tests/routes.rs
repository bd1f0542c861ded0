use underwriting_core::decimal::Decimal;
use underwriting_core::models::fact::Fact;
use underwriting_core::routes::conversation::{
    CreateConversationRequest, PublicMessageRequest, SendMessageRequest,
};
use underwriting_core::routes::deal::{
    new_deal, new_document, read_count, read_figure, read_source, underwrite_facts,
    underwriting_input_from_facts, underwriting_sources_from_facts, UnderwritingError,
};

fn fact(fact_type: &str, value: &str) -> Fact {
    Fact {
        fact_id: "f".to_string(),
        document_id: "d".to_string(),
        deal_id: "deal".to_string(),
        fact_type: fact_type.to_string(),
        label: "label".to_string(),
        value: value.to_string(),
        unit: None,
        source_citation: None,
        status: "approved".to_string(),
        confidence_score: None,
        approved_at: Some(1),
        approved_by: Some("u".to_string()),
        locked: true,
        created_at: 0,
    }
}

fn units(n: i64) -> Decimal {
    Decimal::from_units(n)
}

#[test]
fn approved_facts_become_the_input_of_an_underwriting() {
    let facts = vec![
        fact("unit_count", "10"),
        fact("occupancy_rate", "95"),
        fact("gross_scheduled_rent", "120000.00"),
        fact("collected_rent", "114000"),
        fact("operating_expenses", "45000"),
        fact("debt_service", "50000"),
        fact("property_value", "1000000"),
        fact("mortgage_balance", "700000"),
        fact("interest_rate", "4.5"),
        fact("net_operating_income", "69000"),
        fact("other", "x"),
    ];
    let input = underwriting_input_from_facts(&facts).unwrap();
    assert_eq!(input.unit_count, Some(10));
    assert_eq!(input.occupancy_rate, Some(units(95)));
    assert_eq!(input.gross_scheduled_rent, Some(units(120000)));
    assert_eq!(input.collected_rent, units(114000));
    assert_eq!(input.operating_expenses, units(45000));
    assert_eq!(input.debt_service, Some(units(50000)));
    assert_eq!(input.property_value, Some(units(1000000)));
    assert_eq!(input.mortgage_balance, Some(units(700000)));
    assert_eq!(input.interest_rate, Some(Decimal::from_micros(4_500_000)));
    assert!(input.is_in_range());

    let result = underwrite_facts(&facts).unwrap();
    assert_eq!(result.noi, units(69000));
    assert_eq!(result.dscr, Some(Decimal::from_micros(1_380_000)));
    assert_eq!(result.ltv, Some(units(70)));
}

#[test]
fn an_underwriting_needs_rent_and_expenses() {
    let only_rent = vec![fact("collected_rent", "1")];
    let only_expenses = vec![fact("operating_expenses", "1")];
    let unreadable = vec![fact("collected_rent", "1"), fact("operating_expenses", "n/a")];
    for facts in [vec![], only_rent, only_expenses, unreadable] {
        assert_eq!(
            underwriting_input_from_facts(&facts).unwrap_err(),
            UnderwritingError::MissingRequiredFacts
        );
        assert!(underwrite_facts(&facts).is_err());
    }
    assert_eq!(
        UnderwritingError::MissingRequiredFacts.to_text(),
        "Missing required facts: collected_rent and operating_expenses"
    );
    let both = vec![fact("collected_rent", "1"), fact("operating_expenses", "2")];
    let input = underwriting_input_from_facts(&both).unwrap();
    assert_eq!(input.debt_service, None);
    assert_eq!(input.unit_count, None);
}

#[test]
fn only_facts_that_are_approved_and_locked_are_read() {
    let mut pending = fact("collected_rent", "5");
    pending.status = "pending_approval".to_string();
    let mut unlocked = fact("collected_rent", "6");
    unlocked.locked = false;
    let facts = vec![fact("collected_rent", "4"), pending, unlocked];
    assert_eq!(read_figure(&facts, "collected_rent"), Some(units(4)));
    assert_eq!(read_figure(&facts[1..], "collected_rent"), None);
}

#[test]
fn the_last_fact_that_can_be_read_gives_the_figure() {
    let facts = vec![
        fact("collected_rent", "1"),
        fact("collected_rent", "2"),
        fact("collected_rent", "two"),
        fact("operating_expenses", "9"),
        fact("collected_rent", "1,000"),
    ];
    assert_eq!(read_figure(&facts, "collected_rent"), Some(units(2)));
    assert_eq!(read_figure(&facts, "operating_expenses"), Some(units(9)));
    assert_eq!(read_figure(&facts, "debt_service"), None);
    assert_eq!(read_figure(&[], "collected_rent"), None);
}

#[test]
fn counts_are_read_as_whole_numbers() {
    let facts = vec![
        fact("unit_count", "24"),
        fact("unit_count", "24.0"),
        fact("unit_count", "3000000000"),
    ];
    assert_eq!(read_count(&facts, "unit_count"), Some(24));
    assert_eq!(read_count(&facts[1..], "unit_count"), None);
    assert_eq!(read_count(&[fact("unit_count", "-3")], "unit_count"), Some(-3));
}

#[test]
fn a_new_deal_is_a_draft() {
    let deal = new_deal("user-1".to_string(), "Elm Street".to_string());
    assert_eq!(deal.user_id, "user-1");
    assert_eq!(deal.deal_name, "Elm Street");
    assert_eq!(deal.status, "draft");
    assert_eq!(deal.metadata, None);
    assert_eq!(deal.deal_id.len(), 36);
    assert_ne!(deal.deal_id, new_deal("u".to_string(), "n".to_string()).deal_id);
}

#[test]
fn an_uploaded_file_becomes_a_pending_document() {
    let named = new_document("deal-1", Some("rent roll.pdf".to_string()), "rent_roll");
    assert_eq!(named.deal_id, "deal-1");
    assert_eq!(named.file_name, "rent roll.pdf");
    assert_eq!(named.document_type, "rent_roll");
    assert_eq!(named.status, "pending");
    assert_eq!(named.storage_location, None);
    assert_eq!(named.page_count, None);
    assert_eq!(named.ocr_output, None);
    assert_eq!(named.document_id.len(), 36);
    let unnamed = new_document("deal-1", None, "other");
    assert_eq!(unnamed.file_name, "unknown");
}

fn fact_with_id(fact_id: &str, fact_type: &str, value: &str) -> Fact {
    let mut f = fact(fact_type, value);
    f.fact_id = fact_id.to_string();
    f
}

#[test]
fn each_step_names_the_facts_behind_it() {
    let facts = vec![
        fact_with_id("rent-1", "collected_rent", "100000"),
        fact_with_id("rent-2", "collected_rent", "114000"),
        fact_with_id("rent-3", "collected_rent", "unreadable"),
        fact_with_id("expenses", "operating_expenses", "45000"),
        fact_with_id("debt", "debt_service", "50000"),
        fact_with_id("value", "property_value", "1000000"),
        fact_with_id("mortgage", "mortgage_balance", "700000"),
        fact_with_id("gsr", "gross_scheduled_rent", "120000"),
        fact_with_id("units", "unit_count", "10"),
    ];
    assert_eq!(read_source(&facts, "collected_rent").as_deref(), Some("rent-2"));
    assert_eq!(read_source(&facts, "interest_rate"), None);
    let sources = underwriting_sources_from_facts(&facts);
    assert_eq!(sources.collected_rent.as_deref(), Some("rent-2"));
    assert_eq!(sources.gross_scheduled_rent.as_deref(), Some("gsr"));

    let result = underwrite_facts(&facts).unwrap();
    let listed: Vec<String> = result
        .audit_trail
        .iter()
        .map(|step| format!("{}: {}", step.metric, step.sources.join(",")))
        .collect();
    assert_eq!(
        listed,
        vec![
            "NOI (Net Operating Income): rent-2,expenses",
            "DSCR (Debt Service Coverage Ratio): rent-2,expenses,debt",
            "Cash Flow After Debt: rent-2,expenses,debt",
            "Cap Rate: rent-2,expenses,value",
            "LTV (Loan-to-Value): mortgage,value",
            "Gross Rent Multiplier: value,gsr",
        ]
    );
}

#[test]
fn a_figure_with_more_than_six_decimals_is_read_rounded() {
    let facts = vec![
        fact("collected_rent", "100.12345678"),
        fact("operating_expenses", "0.3333333333"),
    ];
    let input = underwriting_input_from_facts(&facts).unwrap();
    assert_eq!(input.collected_rent, Decimal::from_micros(100_123_457));
    assert_eq!(input.operating_expenses, Decimal::from_micros(333_333));
}

#[test]
fn a_public_message_keeps_its_session_or_gets_a_fresh_one() {
    let named = PublicMessageRequest {
        content: "hello".to_string(),
        session_id: Some("session-7".to_string()),
    };
    assert_eq!(named.session(), "session-7");
    let unnamed = PublicMessageRequest { content: "hello".to_string(), session_id: None };
    let first = unnamed.session();
    let second = unnamed.session();
    assert_eq!(first.len(), 36);
    assert_ne!(first, second);
    let empty = PublicMessageRequest { content: "".to_string(), session_id: Some("".to_string()) };
    assert_eq!(empty.session(), "");
}

#[test]
fn conversation_requests_carry_what_was_asked() {
    let open = CreateConversationRequest { deal_id: Some("deal-1".to_string()), title: None };
    assert_eq!(open.clone().deal_id.as_deref(), Some("deal-1"));
    assert_eq!(open.title, None);
    let message = SendMessageRequest { content: "What is the DSCR?".to_string() };
    assert_eq!(message.clone().content, "What is the DSCR?");
}

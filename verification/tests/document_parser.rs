use underwriting_core::agents::document_parser::{
    classification_preview, classify_document, document_type_from_answer, extraction_text,
    fact_chunks, new_fact_from_validated, page_chunks, resolve_citation, validate_and_cite_facts,
    ClassificationStep, ValidatedFact,
};
use underwriting_core::decimal::Decimal;
use underwriting_core::models::document::{Document, DocumentType};
use underwriting_core::models::fact::{BoundingBox, SourceCitation};
use underwriting_core::models::output::{OCRBoundingBox, OCRResult};
use underwriting_core::services::ai::openai_client::ExtractedFact;

fn fragment(text: &str, x: i64) -> OCRResult {
    OCRResult {
        text: text.to_string(),
        bbox: OCRBoundingBox {
            x: Decimal::from_units(x),
            y: Decimal::from_units(x + 1),
            width: Decimal::from_units(x + 2),
            height: Decimal::from_units(x + 3),
        },
    }
}

fn box_at(x: i64) -> BoundingBox {
    BoundingBox {
        left: Decimal::from_units(x),
        top: Decimal::from_units(x + 1),
        width: Decimal::from_units(x + 2),
        height: Decimal::from_units(x + 3),
    }
}

fn pages() -> Vec<Vec<OCRResult>> {
    vec![
        vec![fragment("Rent Roll", 10), fragment("Total Units: 24", 20)],
        vec![
            fragment("Unit 1", 30),
            fragment("Total Units: 24 again", 40),
            fragment("Total Units: 24", 50),
        ],
        vec![],
    ]
}

fn candidate(source_page: Option<i32>, source_text: Option<&str>) -> ExtractedFact {
    ExtractedFact {
        fact_type: "unit_count".to_string(),
        label: "Total Units".to_string(),
        value: "24".to_string(),
        unit: Some("units".to_string()),
        confidence: Decimal::from_micros(950_000),
        source_page,
        source_text: source_text.map(|t| t.to_string()),
    }
}

fn document(file_name: &str) -> Document {
    Document {
        document_id: "doc-1".to_string(),
        deal_id: "deal-1".to_string(),
        file_name: file_name.to_string(),
        document_type: "other".to_string(),
        status: "pending".to_string(),
        storage_location: None,
        page_count: None,
        ocr_output: None,
        created_at: 0,
    }
}

fn cited(citation: &Option<SourceCitation>) -> String {
    match citation {
        Some(c) => format!("page {} {:?} {:?}", c.document_page, c.text, c.bbox.map(|b| b.left.micros)),
        None => "none".to_string(),
    }
}

#[test]
fn no_claimed_page_means_no_citation() {
    assert!(resolve_citation(&candidate(None, Some("Total Units: 24")), &pages()).is_none());
    assert!(resolve_citation(&candidate(None, None), &pages()).is_none());
}

#[test]
fn a_page_that_the_document_does_not_have_means_no_citation() {
    for page in [0, -1, 4, 5, i32::MAX, i32::MIN] {
        assert!(resolve_citation(&candidate(Some(page), Some("Total Units: 24")), &pages()).is_none());
    }
    assert!(resolve_citation(&candidate(Some(1), Some("x")), &[]).is_none());
}

#[test]
fn a_text_that_the_page_does_not_hold_is_cited_without_a_place() {
    let citation = resolve_citation(&candidate(Some(1), Some("Total Units: 25")), &pages());
    assert_eq!(cited(&citation), "page 1 \"Total Units: 25\" None");
    let on_empty_page = resolve_citation(&candidate(Some(3), Some("anything")), &pages());
    assert_eq!(cited(&on_empty_page), "page 3 \"anything\" None");
}

#[test]
fn the_first_fragment_that_holds_the_text_gives_the_place() {
    let first = resolve_citation(&candidate(Some(1), Some("Total Units: 24")), &pages()).unwrap();
    assert_eq!(first.document_page, 1);
    assert_eq!(first.text, "Total Units: 24");
    assert_eq!(first.bbox, Some(box_at(20)));
    let second = resolve_citation(&candidate(Some(2), Some("Total Units: 24")), &pages()).unwrap();
    assert_eq!(second.bbox, Some(box_at(40)));
    let part = resolve_citation(&candidate(Some(2), Some("nit 1")), &pages()).unwrap();
    assert_eq!(part.bbox, Some(box_at(30)));
    let empty = resolve_citation(&candidate(Some(2), Some("")), &pages()).unwrap();
    assert_eq!(empty.bbox, Some(box_at(30)));
}

#[test]
fn a_claimed_page_without_a_claimed_text_means_no_citation() {
    assert!(resolve_citation(&candidate(Some(1), None), &pages()).is_none());
}

#[test]
fn validation_keeps_every_candidate() {
    let candidates = vec![
        candidate(Some(1), Some("Total Units: 24")),
        candidate(Some(9), Some("Total Units: 24")),
        candidate(None, None),
        candidate(Some(2), Some("missing")),
    ];
    let validated = validate_and_cite_facts(candidates, &pages());
    assert_eq!(validated.len(), 4);
    let citations: Vec<String> = validated.iter().map(|v| cited(&v.source_citation)).collect();
    assert_eq!(
        citations,
        vec![
            "page 1 \"Total Units: 24\" Some(20000000)",
            "none",
            "none",
            "page 2 \"missing\" None",
        ]
    );
    for v in &validated {
        assert_eq!(v.fact_type, "unit_count");
        assert_eq!(v.label, "Total Units");
        assert_eq!(v.value, "24");
        assert_eq!(v.unit.as_deref(), Some("units"));
        assert_eq!(v.confidence, Decimal::from_micros(950_000));
    }
    assert!(validate_and_cite_facts(vec![], &pages()).is_empty());
}

#[test]
fn rules_that_decide_spare_the_model() {
    match classify_document(&document("Rent Roll.pdf"), &pages()) {
        ClassificationStep::Decided(t) => assert_eq!(t, DocumentType::RentRoll),
        ClassificationStep::AskModel(_) => panic!("the file name decides"),
    }
    match classify_document(&document("scan.pdf"), &pages()) {
        ClassificationStep::Decided(t) => assert_eq!(t, DocumentType::RentRoll),
        ClassificationStep::AskModel(_) => panic!("the text decides"),
    }
}

#[test]
fn the_model_is_asked_where_no_rule_matches() {
    let unknown = vec![
        vec![fragment("Lease", 0), fragment("agreement", 0)],
        vec![fragment("between", 0)],
        vec![],
        vec![fragment("fourth page", 0)],
    ];
    match classify_document(&document("Scan 01.PDF"), &unknown) {
        ClassificationStep::AskModel(request) => assert_eq!(
            request,
            "File name: Scan 01.PDF\n\nContent preview:\nLease agreement between"
        ),
        ClassificationStep::Decided(_) => panic!("no rule matches"),
    }
    assert_eq!(classification_preview(&unknown), "Lease agreement between");
    assert_eq!(classification_preview(&[]), "");
}

#[test]
fn the_preview_is_cut_after_two_thousand_characters() {
    let long: String = "\u{00e9}".repeat(1999) + "abc";
    let preview = classification_preview(&vec![vec![fragment(&long, 0)]]);
    assert_eq!(preview.chars().count(), 2000);
    assert_eq!(preview, "\u{00e9}".repeat(1999) + "a");
    let exact: String = "x".repeat(2000);
    assert_eq!(classification_preview(&vec![vec![fragment(&exact, 0)]]), exact);
}

#[test]
fn the_answer_of_the_model_is_read_back_into_a_type() {
    assert_eq!(document_type_from_answer("RENT_ROLL"), DocumentType::RentRoll);
    assert_eq!(
        document_type_from_answer("Classification: PROFIT_AND_LOSS (0.9)"),
        DocumentType::ProfitAndLoss
    );
    assert_eq!(
        document_type_from_answer("MORTGAGE_STATEMENT"),
        DocumentType::MortgageStatement
    );
    assert_eq!(document_type_from_answer("TAX_DOCUMENT"), DocumentType::TaxDocument);
    assert_eq!(document_type_from_answer("BANK_STATEMENT"), DocumentType::Other);
    assert_eq!(document_type_from_answer("APPRAISAL"), DocumentType::Other);
    assert_eq!(document_type_from_answer("rent_roll"), DocumentType::Other);
    assert_eq!(document_type_from_answer(""), DocumentType::Other);
    assert_eq!(
        document_type_from_answer("TAX or RENT_ROLL"),
        DocumentType::RentRoll
    );
}

#[test]
fn the_text_for_extraction_has_every_fragment_on_its_own_line() {
    assert_eq!(
        extraction_text(&pages()),
        "Rent Roll\nTotal Units: 24\nUnit 1\nTotal Units: 24 again\nTotal Units: 24"
    );
    assert_eq!(extraction_text(&[]), "");
}

#[test]
fn a_validated_fact_goes_to_the_store_in_need_of_review() {
    let validated = validate_and_cite_facts(
        vec![candidate(Some(1), Some("Total Units: 24"))],
        &pages(),
    );
    let fact = new_fact_from_validated(validated[0].clone(), "deal-9", "doc-9");
    assert_eq!(fact.deal_id, "deal-9");
    assert_eq!(fact.document_id, "doc-9");
    assert_eq!(fact.fact_type, "unit_count");
    assert_eq!(fact.label, "Total Units");
    assert_eq!(fact.value, "24");
    assert_eq!(fact.unit.as_deref(), Some("units"));
    assert_eq!(fact.status, "needs_review");
    assert_eq!(fact.confidence_score, Some(Decimal::from_micros(950_000)));
    assert_eq!(cited(&fact.source_citation), "page 1 \"Total Units: 24\" Some(20000000)");
    assert_eq!(fact.fact_id.len(), 36);
}

#[test]
fn pages_with_text_become_chunks() {
    let chunks = page_chunks("doc-1", &pages());
    let listed: Vec<String> = chunks
        .iter()
        .map(|c| format!("{} | {} | {:?}", c.id, c.text, c.page_number))
        .collect();
    assert_eq!(
        listed,
        vec![
            "doc-1-page-1 | Rent Roll Total Units: 24 | Some(1)",
            "doc-1-page-2 | Unit 1 Total Units: 24 again Total Units: 24 | Some(2)",
        ]
    );
    let with_gap = vec![vec![], vec![fragment("", 0)], vec![fragment("x", 0)]];
    let chunks = page_chunks("d", &with_gap);
    assert_eq!(chunks.len(), 1);
    assert_eq!(chunks[0].id, "d-page-3");
}

#[test]
fn facts_become_chunks_numbered_from_zero() {
    let facts = vec![
        ValidatedFact {
            fact_type: "unit_count".to_string(),
            label: "Total Units".to_string(),
            value: "24".to_string(),
            unit: Some("units".to_string()),
            confidence: Decimal::zero(),
            source_citation: None,
        },
        ValidatedFact {
            fact_type: "other".to_string(),
            label: "Owner".to_string(),
            value: "Smith".to_string(),
            unit: None,
            confidence: Decimal::zero(),
            source_citation: None,
        },
    ];
    let chunks = fact_chunks("doc-1", &facts);
    let listed: Vec<String> = chunks
        .iter()
        .map(|c| format!("{} | {} | {:?}", c.id, c.text, c.page_number))
        .collect();
    assert_eq!(
        listed,
        vec![
            "doc-1-fact-0 | Total Units: 24 units | None",
            "doc-1-fact-1 | Owner: Smith  | None",
        ]
    );
}

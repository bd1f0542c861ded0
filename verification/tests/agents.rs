use underwriting_core::agents::chat_orchestrator::{
    build_contextual_message, detect_action, document_context_item, fact_context_item,
    intent_from_answer, intent_request, sort_by_relevance, ContextItem, Intent,
};
use underwriting_core::agents::common::{handle_agent_error, has_ended, AgentError, AgentResult};
use underwriting_core::decimal::Decimal;
use underwriting_core::services::ai::claude_client::ConversationMessage;

fn item(content: &str, score: i128) -> ContextItem {
    ContextItem {
        content: content.to_string(),
        source: "src".to_string(),
        relevance_score: Decimal::from_micros(score),
    }
}

fn turn(role: &str, content: &str) -> ConversationMessage {
    ConversationMessage { role: role.to_string(), content: content.to_string() }
}

fn intent(intent_type: &str) -> Intent {
    Intent { intent_type: intent_type.to_string(), confidence: Decimal::from_micros(800_000) }
}

#[test]
fn errors_are_worded_for_the_user() {
    assert_eq!(
        handle_agent_error(AgentError::InputError("no file".to_string())),
        "Invalid input: no file"
    );
    assert_eq!(
        handle_agent_error(AgentError::ProcessingError("page 3".to_string())),
        "Processing failed: page 3"
    );
    assert_eq!(
        handle_agent_error(AgentError::ExternalServiceError("timeout".to_string())),
        "External service error: timeout. Please try again later."
    );
    assert_eq!(
        handle_agent_error(AgentError::DatabaseError("relation missing".to_string())),
        "Database error occurred. Please try again."
    );
    assert_eq!(
        handle_agent_error(AgentError::ConfigurationError("no key".to_string())),
        "System configuration error. Please contact support."
    );
}

#[test]
fn errors_have_a_text_of_their_own() {
    assert_eq!(AgentError::InputError("a".to_string()).to_text(), "Input Error: a");
    assert_eq!(AgentError::ProcessingError("b".to_string()).to_text(), "Processing Error: b");
    assert_eq!(
        AgentError::ExternalServiceError("c".to_string()).to_text(),
        "External Service Error: c"
    );
    assert_eq!(AgentError::DatabaseError("d".to_string()).to_text(), "Database Error: d");
    assert_eq!(
        AgentError::ConfigurationError("".to_string()).to_text(),
        "Configuration Error: "
    );
}

#[test]
fn results_report_success_and_failure() {
    let output = serde_json::Value::from(3);
    let ok = AgentResult::success(output.clone(), Some(120), 45);
    assert!(ok.success);
    assert_eq!(ok.output, Some(output));
    assert_eq!(ok.error, None);
    assert_eq!(ok.tokens_used, Some(120));
    assert_eq!(ok.execution_time_ms, Some(45));
    assert_eq!(ok.execution_id.len(), 36);

    let failed = AgentResult::failure("boom".to_string());
    assert!(!failed.success);
    assert_eq!(failed.output, None);
    assert_eq!(failed.error.as_deref(), Some("boom"));
    assert_eq!(failed.tokens_used, None);
    assert_eq!(failed.execution_time_ms, None);
    assert_ne!(failed.execution_id, ok.execution_id);
}

#[test]
fn a_run_has_ended_when_it_completed_or_failed() {
    assert!(has_ended("completed"));
    assert!(has_ended("failed"));
    assert!(!has_ended("running"));
    assert!(!has_ended("Completed"));
    assert!(!has_ended(""));
}

#[test]
fn the_intent_is_read_from_the_answer() {
    let of = |answer: &str| intent_from_answer(answer).intent_type;
    assert_eq!(of("UPLOAD_DOCUMENT"), "UPLOAD_DOCUMENT");
    assert_eq!(of("I think ANALYZE_DEAL."), "ANALYZE_DEAL");
    assert_eq!(of("GENERATE_MEMO"), "GENERATE_MEMO");
    assert_eq!(of("VIEW_DATA"), "VIEW_DATA");
    assert_eq!(of("GET_HELP"), "GET_HELP");
    assert_eq!(of("ASK_QUESTION"), "ASK_QUESTION");
    assert_eq!(of("upload_document"), "ASK_QUESTION");
    assert_eq!(of(""), "ASK_QUESTION");
    assert_eq!(of("GET_HELP or UPLOAD_DOCUMENT"), "UPLOAD_DOCUMENT");
    assert_eq!(intent_from_answer("x").confidence, Decimal::from_micros(800_000));
}

#[test]
fn the_request_for_the_intent_shows_the_latest_turns_first() {
    assert_eq!(intent_request("hello", &[]), "hello");
    assert_eq!(
        intent_request("now", &[turn("user", "one")]),
        "Recent conversation:\nuser: one\n\nCurrent message: now"
    );
    let history = vec![
        turn("user", "one"),
        turn("assistant", "two"),
        turn("user", "three"),
        turn("assistant", "four"),
    ];
    assert_eq!(
        intent_request("now", &history),
        "Recent conversation:\nassistant: four\nuser: three\nassistant: two\n\nCurrent message: now"
    );
}

#[test]
fn a_message_without_context_goes_as_it_is() {
    assert_eq!(build_contextual_message("What is NOI?", &[], Some("deal-1")), "What is NOI?");
}

#[test]
fn a_message_with_context_carries_the_first_five_items() {
    let context: Vec<ContextItem> = (1..=6).map(|i| item(&format!("c{}", i), 0)).collect();
    assert_eq!(
        build_contextual_message("Q", &context, Some("deal-1")),
        "User's question: Q\n\nRelevant context from their data:\n- c1 (from src)\n- c2 (from src)\n- c3 (from src)\n- c4 (from src)\n- c5 (from src)\n\nCurrent Deal ID: deal-1\n\nPlease provide a helpful response using this context."
    );
    assert_eq!(
        build_contextual_message("Q", &context[..1], None),
        "User's question: Q\n\nRelevant context from their data:\n- c1 (from src)\n\nPlease provide a helpful response using this context."
    );
}

#[test]
fn the_intent_decides_the_action() {
    let upload = detect_action("ignored", &intent("UPLOAD_DOCUMENT")).unwrap();
    assert_eq!(upload.action_type, "trigger_upload");
    assert!(upload.parameters.is_empty());
    let analyze = detect_action("", &intent("ANALYZE_DEAL")).unwrap();
    assert_eq!(analyze.action_type, "run_underwriting");
    assert!(analyze.parameters.is_empty());
    let memo = detect_action("", &intent("GENERATE_MEMO")).unwrap();
    assert_eq!(memo.action_type, "generate_memo");
    assert_eq!(memo.parameters, vec![("template".to_string(), "lp".to_string())]);
    assert!(detect_action("UPLOAD_DOCUMENT", &intent("VIEW_DATA")).is_none());
    assert!(detect_action("", &intent("ASK_QUESTION")).is_none());
    assert!(detect_action("", &intent("")).is_none());
}

#[test]
fn retrieved_items_are_worded_by_their_kind() {
    let page = document_context_item("Total Units: 24", "2", Decimal::from_micros(910_000));
    assert_eq!(page.content, "Total Units: 24");
    assert_eq!(page.source, "Document page 2");
    assert_eq!(page.relevance_score, Decimal::from_micros(910_000));
    let fact = fact_context_item("Collected Rent", "114000", Decimal::from_micros(5));
    assert_eq!(fact.content, "Collected Rent: 114000");
    assert_eq!(fact.source, "Extracted Facts");
    assert_eq!(fact.relevance_score, Decimal::from_micros(5));
}

#[test]
fn items_are_ordered_by_relevance_and_equal_ones_keep_their_order() {
    let sorted = sort_by_relevance(vec![
        item("a", 500_000),
        item("b", 900_000),
        item("c", 500_000),
        item("d", 100_000),
        item("e", 900_000),
        item("f", 950_000),
    ]);
    let order: Vec<&str> = sorted.iter().map(|i| i.content.as_str()).collect();
    assert_eq!(order, vec!["f", "b", "e", "a", "c", "d"]);
    assert!(sort_by_relevance(vec![]).is_empty());
    let one = sort_by_relevance(vec![item("only", -5)]);
    assert_eq!(one[0].content, "only");
}

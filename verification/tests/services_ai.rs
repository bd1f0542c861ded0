use underwriting_core::services::ai::claude_client::{
    analysis_request, answer_text, memo_request, total_tokens, ClaudeResponse, ContentBlock,
    InvestorMemo, UnderwritingAnalysis,
};
use underwriting_core::services::ai::openai_client::{extraction_request, ChatResponse};
use underwriting_core::services::ai::prompts::{
    get_chat_system_prompt, get_document_extraction_prompt, get_memo_template_prompt,
    DOCUMENT_CLASSIFIER_SYSTEM, IC_MEMO_TEMPLATE_PROMPT, INTENT_CLASSIFIER_PROMPT,
    LP_MEMO_TEMPLATE_PROMPT, MORTGAGE_STATEMENT_EXTRACTION_SYSTEM, PL_STATEMENT_EXTRACTION_SYSTEM,
    PRIVATE_CHAT_SYSTEM, PUBLIC_CHAT_SYSTEM, RENT_ROLL_EXTRACTION_SYSTEM,
    TAX_DOCUMENT_EXTRACTION_SYSTEM,
};

fn block(content_type: &str, text: Option<&str>) -> ContentBlock {
    ContentBlock { content_type: content_type.to_string(), text: text.map(|t| t.to_string()) }
}

#[test]
fn extraction_prompts_are_chosen_by_document_type() {
    for name in ["rent_roll", "RENT_ROLL"] {
        assert_eq!(get_document_extraction_prompt(name), RENT_ROLL_EXTRACTION_SYSTEM);
    }
    for name in ["profit_and_loss", "PROFIT_AND_LOSS", "P&L"] {
        assert_eq!(get_document_extraction_prompt(name), PL_STATEMENT_EXTRACTION_SYSTEM);
    }
    for name in ["mortgage_statement", "MORTGAGE_STATEMENT"] {
        assert_eq!(
            get_document_extraction_prompt(name),
            MORTGAGE_STATEMENT_EXTRACTION_SYSTEM
        );
    }
    for name in ["tax_document", "TAX_DOCUMENT"] {
        assert_eq!(get_document_extraction_prompt(name), TAX_DOCUMENT_EXTRACTION_SYSTEM);
    }
    for name in ["other", "OTHER", "bank_statement", "", "Rent_Roll", "p&l"] {
        assert_eq!(get_document_extraction_prompt(name), RENT_ROLL_EXTRACTION_SYSTEM);
    }
}

#[test]
fn memo_templates_are_chosen_by_name() {
    for name in ["lp", "LP", "limited_partner", "", "anything"] {
        assert_eq!(get_memo_template_prompt(name), LP_MEMO_TEMPLATE_PROMPT);
    }
    for name in ["ic", "IC", "investment_committee"] {
        assert_eq!(get_memo_template_prompt(name), IC_MEMO_TEMPLATE_PROMPT);
    }
    assert_ne!(LP_MEMO_TEMPLATE_PROMPT, IC_MEMO_TEMPLATE_PROMPT);
}

#[test]
fn the_chat_prompt_depends_on_whether_the_user_signed_in() {
    assert_eq!(get_chat_system_prompt(true), PRIVATE_CHAT_SYSTEM);
    assert_eq!(get_chat_system_prompt(false), PUBLIC_CHAT_SYSTEM);
    assert_ne!(PRIVATE_CHAT_SYSTEM, PUBLIC_CHAT_SYSTEM);
}

#[test]
fn the_prompts_name_the_tags_that_answers_are_read_by() {
    for tag in ["RENT_ROLL", "PROFIT_AND_LOSS", "MORTGAGE_STATEMENT", "TAX_DOCUMENT", "OTHER"] {
        assert!(DOCUMENT_CLASSIFIER_SYSTEM.contains(tag));
    }
    for tag in ["UPLOAD_DOCUMENT", "ANALYZE_DEAL", "GENERATE_MEMO", "VIEW_DATA", "GET_HELP"] {
        assert!(INTENT_CLASSIFIER_PROMPT.contains(tag));
    }
    assert!(RENT_ROLL_EXTRACTION_SYSTEM.starts_with("You are an expert at extracting structured data from rent roll documents."));
    assert!(RENT_ROLL_EXTRACTION_SYSTEM.ends_with("Be conservative with confidence scores. If uncertain, score lower."));
}

#[test]
fn requests_to_the_models_are_worded_exactly() {
    assert_eq!(
        analysis_request("NOI: $100,000, DSCR: 1.5", "10-unit multifamily property"),
        "Context:\n10-unit multifamily property\n\nFacts:\nNOI: $100,000, DSCR: 1.5\n\nPlease provide a comprehensive underwriting analysis."
    );
    assert_eq!(
        memo_request("deal data", "template"),
        "Template Requirements:\ntemplate\n\nDeal Data:\ndeal data\n\nPlease generate a professional investor memo."
    );
    assert_eq!(
        extraction_request("rent_roll", "Total Units: 24"),
        "Document Type: rent_roll\n\nDocument Text:\nTotal Units: 24"
    );
}

#[test]
fn an_answer_is_the_text_of_its_text_blocks() {
    let blocks = vec![
        block("text", Some("first")),
        block("tool_use", Some("skipped")),
        block("text", None),
        block("text", Some("second")),
    ];
    assert_eq!(answer_text(&blocks), "first\nsecond");
    assert_eq!(answer_text(&[]), "");
    assert_eq!(answer_text(&[block("image", None)]), "");
}

#[test]
fn tokens_are_added_where_the_sum_can_be_held() {
    assert_eq!(total_tokens(120, 80), Some(200));
    assert_eq!(total_tokens(0, 0), Some(0));
    assert_eq!(total_tokens(i32::MAX, 0), Some(i32::MAX));
    assert_eq!(total_tokens(i32::MAX, 1), None);
    assert_eq!(total_tokens(i32::MIN, -1), None);
    assert_eq!(total_tokens(i32::MIN, i32::MAX), Some(-1));
}

#[test]
fn answers_become_analyses_and_memos() {
    let response = ClaudeResponse {
        content: "The deal is sound.".to_string(),
        tokens_used: Some(321),
        model: "m".to_string(),
        stop_reason: Some("end_turn".to_string()),
    };
    let analysis = UnderwritingAnalysis::from_response(&response);
    assert_eq!(analysis.summary, "The deal is sound.");
    assert!(analysis.insights.is_empty());
    assert!(analysis.recommendations.is_empty());
    assert!(analysis.risks.is_empty());
    assert_eq!(analysis.tokens_used, Some(321));
    let memo = InvestorMemo::from_response(response);
    assert_eq!(memo.content, "The deal is sound.");
    assert!(memo.sections.is_empty());
    assert_eq!(memo.tokens_used, Some(321));
    let chat = ChatResponse { content: "hi".to_string(), tokens_used: None, model: "m".to_string() };
    assert_eq!(chat.clone().content, "hi");
}

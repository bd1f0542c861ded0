//! What goes to and comes back from the model that extracts facts: the request
//! put to it and the shape of its answers. The exchange itself is not made
//! here.

use vstd::prelude::*;
use vstd::string::StringExecFns;
use crate::decimal::Decimal;
use crate::text::owned;

verus! {

/// A candidate fact, as an extractor hands it over: what was read, how sure the
/// extractor is of it (from 0 to 1), and where it claims to have read it.
#[derive(Debug, Clone)]
pub struct ExtractedFact {
    pub fact_type: String,
    pub label: String,
    pub value: String,
    pub unit: Option<String>,
    pub confidence: Decimal,
    pub source_page: Option<i32>,
    pub source_text: Option<String>,
}

/// The facts that one extraction yields.
#[derive(Debug, Clone)]
pub struct StructuredFacts {
    pub facts: Vec<ExtractedFact>,
}

/// An answer of the model in a conversation.
#[derive(Debug, Clone)]
pub struct ChatResponse {
    pub content: String,
    pub tokens_used: Option<i32>,
    pub model: String,
}

/// The request for the facts of a document.
pub open spec fn extraction_request_text(document_type: Seq<char>, ocr_text: Seq<char>) -> Seq<
    char,
> {
    "Document Type: "@ + document_type + "\n\nDocument Text:\n"@ + ocr_text
}

/// Words the request for the facts of a document.
pub fn extraction_request(document_type: &str, ocr_text: &str) -> (message: String)
    ensures
        message@ == extraction_request_text(document_type@, ocr_text@),
{
    let mut message = owned("Document Type: ");
    message.append(document_type);
    message.append("\n\nDocument Text:\n");
    message.append(ocr_text);
    message
}

} // verus!

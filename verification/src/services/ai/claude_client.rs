//! What goes to and comes back from the model that writes analyses and memos:
//! the requests put to it and the shape of its answers. The exchange itself
//! is not made here.

use vstd::prelude::*;
use vstd::string::StringExecFns;
use crate::text::{join, joined, owned, views};

verus! {

/// An answer of the model.
#[derive(Debug, Clone)]
pub struct ClaudeResponse {
    pub content: String,
    pub tokens_used: Option<i32>,
    pub model: String,
    pub stop_reason: Option<String>,
}

/// One turn of a conversation.
#[derive(Debug, Clone)]
pub struct ConversationMessage {
    pub role: String,
    pub content: String,
}

/// A commentary on an underwriting.
#[derive(Debug, Clone)]
pub struct UnderwritingAnalysis {
    pub summary: String,
    pub insights: Vec<String>,
    pub recommendations: Vec<String>,
    pub risks: Vec<String>,
    pub tokens_used: Option<i32>,
}

/// A section of a memo.
#[derive(Debug, Clone)]
pub struct MemoSection {
    pub title: String,
    pub content: String,
}

/// An investment memo.
#[derive(Debug, Clone)]
pub struct InvestorMemo {
    pub content: String,
    pub sections: Vec<MemoSection>,
    pub tokens_used: Option<i32>,
}

/// One block of an answer as the service sends it: its type, and its text where
/// it is a block of text.
#[derive(Debug, Clone)]
pub struct ContentBlock {
    pub content_type: String,
    pub text: Option<String>,
}

/// The texts of the blocks that are of type "text" and carry one, in order.
pub open spec fn block_texts(blocks: Seq<ContentBlock>) -> Seq<Seq<char>>
    decreases blocks.len(),
{
    if blocks.len() == 0 {
        Seq::empty()
    } else {
        let b = blocks.last();
        let before = block_texts(blocks.drop_last());
        if b.content_type@ == "text"@ && b.text is Some {
            before.push(b.text->0@)
        } else {
            before
        }
    }
}

/// The text of an answer: the texts of its blocks of text, each on a line of its
/// own.
pub fn answer_text(blocks: &[ContentBlock]) -> (content: String)
    ensures
        content@ == joined(block_texts(blocks@), "\n"@),
{
    let mut texts: Vec<String> = Vec::new();
    let mut i: usize = 0;
    assert(views(texts@) =~= block_texts(blocks@.take(0)));
    while i < blocks.len()
        invariant
            i <= blocks.len(),
            views(texts@) == block_texts(blocks@.take(i as int)),
        decreases blocks.len() - i,
    {
        let block = &blocks[i];
        let ghost seen = texts@;
        proof {
            assert(blocks@.take(i + 1).drop_last() =~= blocks@.take(i as int));
            assert(blocks@.take(i + 1).last() == blocks@[i as int]);
        }
        if block.content_type.as_str().eq("text") {
            match &block.text {
                Some(text) => {
                    texts.push(owned(text.as_str()));
                    proof {
                        assert(views(texts@) =~= views(seen).push(text@));
                    }
                },
                None => {},
            }
        }
        i = i + 1;
    }
    proof {
        assert(blocks@.take(blocks.len() as int) =~= blocks@);
    }
    join(&texts, "\n")
}

/// The tokens that an exchange used: those of the request and those of the
/// answer together, where the sum can be held.
pub fn total_tokens(input_tokens: i32, output_tokens: i32) -> (total: Option<i32>)
    ensures
        total is Some <==> i32::MIN <= input_tokens + output_tokens <= i32::MAX,
        total matches Some(t) ==> t == input_tokens + output_tokens,
{
    let sum: i64 = input_tokens as i64 + output_tokens as i64;
    if sum < -2147483648 || sum > 2147483647 {
        None
    } else {
        Some(sum as i32)
    }
}

/// The request for a commentary on an underwriting.
pub open spec fn analysis_request_text(facts: Seq<char>, context: Seq<char>) -> Seq<char> {
    "Context:\n"@ + context + "\n\nFacts:\n"@ + facts
        + "\n\nPlease provide a comprehensive underwriting analysis."@
}

/// The request for an investment memo.
pub open spec fn memo_request_text(deal_data: Seq<char>, template: Seq<char>) -> Seq<char> {
    "Template Requirements:\n"@ + template + "\n\nDeal Data:\n"@ + deal_data
        + "\n\nPlease generate a professional investor memo."@
}

/// Words the request for a commentary on an underwriting.
pub fn analysis_request(facts: &str, context: &str) -> (message: String)
    ensures
        message@ == analysis_request_text(facts@, context@),
{
    let mut message = owned("Context:\n");
    message.append(context);
    message.append("\n\nFacts:\n");
    message.append(facts);
    message.append("\n\nPlease provide a comprehensive underwriting analysis.");
    message
}

/// Words the request for an investment memo.
pub fn memo_request(deal_data: &str, template: &str) -> (message: String)
    ensures
        message@ == memo_request_text(deal_data@, template@),
{
    let mut message = owned("Template Requirements:\n");
    message.append(template);
    message.append("\n\nDeal Data:\n");
    message.append(deal_data);
    message.append("\n\nPlease generate a professional investor memo.");
    message
}

impl UnderwritingAnalysis {
    /// The commentary that an answer holds: the answer's text as the summary, no
    /// separate insights, recommendations or risks.
    pub fn from_response(response: &ClaudeResponse) -> (analysis: UnderwritingAnalysis)
        ensures
            analysis.summary@ == response.content@,
            analysis.insights@.len() == 0,
            analysis.recommendations@.len() == 0,
            analysis.risks@.len() == 0,
            analysis.tokens_used == response.tokens_used,
    {
        UnderwritingAnalysis {
            summary: owned(response.content.as_str()),
            insights: Vec::new(),
            recommendations: Vec::new(),
            risks: Vec::new(),
            tokens_used: response.tokens_used,
        }
    }
}

impl InvestorMemo {
    /// The memo that an answer holds: the answer's text, not split into
    /// sections.
    pub fn from_response(response: ClaudeResponse) -> (memo: InvestorMemo)
        ensures
            memo.content == response.content,
            memo.sections@.len() == 0,
            memo.tokens_used == response.tokens_used,
    {
        InvestorMemo {
            content: response.content,
            sections: Vec::new(),
            tokens_used: response.tokens_used,
        }
    }
}

} // verus!

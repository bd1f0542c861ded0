//! The decisions of the chat orchestrator: how a question is put to the model
//! that names the intent, what intent its answer names, how a message is
//! enriched with what was retrieved for it, and which action an intent calls
//! for.
//!
//! Retrieval, the conversation with the model and the record of it are left to
//! the caller.

use vstd::prelude::*;
use vstd::string::StringExecFns;
use crate::decimal::Decimal;
use crate::services::ai::claude_client::ConversationMessage;
use crate::text::{concat3, holds, is_substring, join, joined, owned, to_chars, views};

verus! {

/// What a user is after, and how sure the classification is of it.
#[derive(Debug, Clone)]
pub struct Intent {
    pub intent_type: String,
    pub confidence: Decimal,
}

/// A piece of the user's data that was retrieved for a message.
#[derive(Debug, Clone)]
pub struct ContextItem {
    pub content: String,
    pub source: String,
    pub relevance_score: Decimal,
}

/// Something for the caller to do, with its named parameters.
#[derive(Debug, Clone)]
pub struct Action {
    pub action_type: String,
    pub parameters: Vec<(String, String)>,
}

/// The outcome of one exchange.
#[derive(Debug, Clone)]
pub struct ChatResult {
    pub response: String,
    pub intent: String,
    pub action: Option<Action>,
    pub context_used: usize,
    pub tokens_used: Option<i32>,
    pub execution_time_ms: i32,
}

/// The intent that an answer of the model names: the first of the known intents
/// whose tag occurs in the answer, and a plain question where none does.
pub open spec fn answered_intent(answer: Seq<char>) -> Seq<char> {
    if is_substring("UPLOAD_DOCUMENT"@, answer) {
        "UPLOAD_DOCUMENT"@
    } else if is_substring("ANALYZE_DEAL"@, answer) {
        "ANALYZE_DEAL"@
    } else if is_substring("GENERATE_MEMO"@, answer) {
        "GENERATE_MEMO"@
    } else if is_substring("VIEW_DATA"@, answer) {
        "VIEW_DATA"@
    } else if is_substring("GET_HELP"@, answer) {
        "GET_HELP"@
    } else {
        "ASK_QUESTION"@
    }
}

/// Reads the intent from an answer of the model. The confidence is a fixed 0.8.
pub fn intent_from_answer(answer: &str) -> (intent: Intent)
    ensures
        intent.intent_type@ == answered_intent(answer@),
        intent.confidence.micros == 800_000,
{
    let answer = to_chars(answer);
    let intent_type = if holds(&answer, "UPLOAD_DOCUMENT") {
        "UPLOAD_DOCUMENT"
    } else if holds(&answer, "ANALYZE_DEAL") {
        "ANALYZE_DEAL"
    } else if holds(&answer, "GENERATE_MEMO") {
        "GENERATE_MEMO"
    } else if holds(&answer, "VIEW_DATA") {
        "VIEW_DATA"
    } else if holds(&answer, "GET_HELP") {
        "GET_HELP"
    } else {
        "ASK_QUESTION"
    };
    Intent { intent_type: owned(intent_type), confidence: Decimal { micros: 800_000 } }
}

/// A turn of the conversation on one line: who spoke, and what.
pub open spec fn turn_line(m: ConversationMessage) -> Seq<char> {
    m.role@ + ": "@ + m.content@
}

/// The last turns of a conversation, at most three, the latest first.
pub open spec fn recent_turns(history: Seq<ConversationMessage>) -> Seq<Seq<char>> {
    Seq::new(
        if history.len() < 3 {
            history.len()
        } else {
            3
        },
        |i: int| turn_line(history[history.len() - 1 - i]),
    )
}

/// What the model that names intents is shown: the message alone where the
/// conversation has just begun, else the recent turns and then the message.
pub open spec fn intent_request_text(message: Seq<char>, history: Seq<ConversationMessage>)
    -> Seq<char> {
    if history.len() == 0 {
        message
    } else {
        "Recent conversation:\n"@ + joined(recent_turns(history), "\n"@)
            + "\n\nCurrent message: "@ + message
    }
}

/// Words what the model that names intents is shown.
pub fn intent_request(message: &str, history: &[ConversationMessage]) -> (request: String)
    ensures
        request@ == intent_request_text(message@, history@),
{
    if history.len() == 0 {
        return owned(message);
    }
    let count: usize = if history.len() < 3 {
        history.len()
    } else {
        3
    };
    let mut recent: Vec<String> = Vec::new();
    let mut i: usize = 0;
    while i < count
        invariant
            i <= count <= history.len(),
            count == recent_turns(history@).len(),
            views(recent@) == recent_turns(history@).take(i as int),
        decreases count - i,
    {
        let turn = &history[history.len() - 1 - i];
        let ghost seen = recent@;
        let line = concat3(turn.role.as_str(), ": ", turn.content.as_str());
        recent.push(line);
        i = i + 1;
        proof {
            assert(line@ == recent_turns(history@)[i - 1]);
            assert(views(recent@) =~= views(seen).push(line@));
            assert(views(recent@) =~= recent_turns(history@).take(i as int));
        }
    }
    proof {
        assert(recent_turns(history@).take(count as int) =~= recent_turns(history@));
    }
    let mut request = owned("Recent conversation:\n");
    request.append(join(&recent, "\n").as_str());
    request.append("\n\nCurrent message: ");
    request.append(message);
    request
}

/// A retrieved item on one line.
pub open spec fn context_line(item: ContextItem) -> Seq<char> {
    "- "@ + item.content@ + " (from "@ + item.source@ + ")"@
}

/// The lines of the first items, at most five.
pub open spec fn context_lines(context: Seq<ContextItem>) -> Seq<Seq<char>> {
    Seq::new(
        if context.len() < 5 {
            context.len()
        } else {
            5
        },
        |i: int| context_line(context[i]),
    )
}

/// The note on the deal that a message is about.
pub open spec fn deal_note(deal_id: Option<Seq<char>>) -> Seq<char> {
    match deal_id {
        Some(deal) => "\n\nCurrent Deal ID: "@ + deal,
        None => Seq::empty(),
    }
}

/// A message together with what was retrieved for it: the message alone where
/// nothing was retrieved; else the question, the first five items, the deal
/// where the message is about one, and the request to use all that.
pub open spec fn contextual_message(
    user_message: Seq<char>,
    context: Seq<ContextItem>,
    deal_id: Option<Seq<char>>,
) -> Seq<char> {
    if context.len() == 0 {
        user_message
    } else {
        "User's question: "@ + user_message + "\n\nRelevant context from their data:\n"@ + joined(
            context_lines(context),
            "\n"@,
        ) + deal_note(deal_id) + "\n\nPlease provide a helpful response using this context."@
    }
}

/// Builds the message that goes to the model from the user's message and what
/// was retrieved for it.
pub fn build_contextual_message(
    user_message: &str,
    context: &[ContextItem],
    deal_id: Option<&str>,
) -> (message: String)
    ensures
        message@ == contextual_message(
            user_message@,
            context@,
            match deal_id {
                Some(deal) => Some(deal@),
                None => None,
            },
        ),
{
    if context.len() == 0 {
        return owned(user_message);
    }
    let count: usize = if context.len() < 5 {
        context.len()
    } else {
        5
    };
    let mut lines: Vec<String> = Vec::new();
    let mut i: usize = 0;
    while i < count
        invariant
            i <= count <= context.len(),
            count == context_lines(context@).len(),
            views(lines@) == context_lines(context@).take(i as int),
        decreases count - i,
    {
        let item = &context[i];
        let mut line = owned("- ");
        line.append(item.content.as_str());
        line.append(" (from ");
        line.append(item.source.as_str());
        line.append(")");
        let ghost seen = lines@;
        lines.push(line);
        i = i + 1;
        proof {
            assert(line@ == context_lines(context@)[i - 1]);
            assert(views(lines@) =~= views(seen).push(line@));
            assert(views(lines@) =~= context_lines(context@).take(i as int));
        }
    }
    proof {
        assert(context_lines(context@).take(count as int) =~= context_lines(context@));
    }
    let mut message = owned("User's question: ");
    message.append(user_message);
    message.append("\n\nRelevant context from their data:\n");
    message.append(join(&lines, "\n").as_str());
    match deal_id {
        Some(deal) => {
            message.append("\n\nCurrent Deal ID: ");
            message.append(deal);
            proof {
                assert(message@ =~= "User's question: "@ + user_message@
                    + "\n\nRelevant context from their data:\n"@ + joined(
                    context_lines(context@),
                    "\n"@,
                ) + ("\n\nCurrent Deal ID: "@ + deal@));
            }
        },
        None => {
            proof {
                assert(message@ =~= "User's question: "@ + user_message@
                    + "\n\nRelevant context from their data:\n"@ + joined(
                    context_lines(context@),
                    "\n"@,
                ) + Seq::<char>::empty());
            }
        },
    }
    message.append("\n\nPlease provide a helpful response using this context.");
    message
}

/// An action as mathematics: its type and its parameters by name.
pub struct ActionView {
    pub action_type: Seq<char>,
    pub parameters: Seq<(Seq<char>, Seq<char>)>,
}

impl View for Action {
    type V = ActionView;

    open spec fn view(&self) -> ActionView {
        ActionView {
            action_type: self.action_type@,
            parameters: self.parameters@.map_values(|p: (String, String)| (p.0@, p.1@)),
        }
    }
}

/// The action that an intent calls for: an upload, an underwriting, or a memo
/// from the template for limited partners; none for any other intent.
pub open spec fn action_for(intent_type: Seq<char>) -> Option<ActionView> {
    if intent_type == "UPLOAD_DOCUMENT"@ {
        Some(ActionView { action_type: "trigger_upload"@, parameters: Seq::empty() })
    } else if intent_type == "ANALYZE_DEAL"@ {
        Some(ActionView { action_type: "run_underwriting"@, parameters: Seq::empty() })
    } else if intent_type == "GENERATE_MEMO"@ {
        Some(ActionView { action_type: "generate_memo"@, parameters: seq![("template"@, "lp"@)] })
    } else {
        None
    }
}

/// Tells which action, if any, the caller is to take. The intent decides; the
/// response is not looked at.
pub fn detect_action(response: &str, intent: &Intent) -> (action: Option<Action>)
    ensures
        (match action {
            Some(a) => Some(a@),
            None => None,
        }) == action_for(intent.intent_type@),
{
    let intent_type = intent.intent_type.as_str();
    if intent_type.eq("UPLOAD_DOCUMENT") {
        let action = Action { action_type: owned("trigger_upload"), parameters: Vec::new() };
        proof {
            assert(action@.parameters =~= Seq::empty());
        }
        Some(action)
    } else if intent_type.eq("ANALYZE_DEAL") {
        let action = Action { action_type: owned("run_underwriting"), parameters: Vec::new() };
        proof {
            assert(action@.parameters =~= Seq::empty());
        }
        Some(action)
    } else if intent_type.eq("GENERATE_MEMO") {
        let mut parameters: Vec<(String, String)> = Vec::new();
        parameters.push((owned("template"), owned("lp")));
        let action = Action { action_type: owned("generate_memo"), parameters };
        proof {
            assert(action@.parameters =~= seq![("template"@, "lp"@)]);
        }
        Some(action)
    } else {
        None
    }
}

/// What was retrieved from a page of a document, as an item of context.
pub fn document_context_item(text: &str, page: &str, relevance_score: Decimal) -> (item:
    ContextItem)
    ensures
        item.content@ == text@,
        item.source@ == "Document page "@ + page@,
        item.relevance_score == relevance_score,
{
    let mut source = owned("Document page ");
    source.append(page);
    ContextItem { content: owned(text), source, relevance_score }
}

/// A fact that was retrieved, as an item of context.
pub fn fact_context_item(label: &str, value: &str, relevance_score: Decimal) -> (item: ContextItem)
    ensures
        item.content@ == label@ + ": "@ + value@,
        item.source@ == "Extracted Facts"@,
        item.relevance_score == relevance_score,
{
    ContextItem {
        content: concat3(label, ": ", value),
        source: owned("Extracted Facts"),
        relevance_score,
    }
}

/// A list ordered by relevance with one more item put in: the item goes behind
/// every item that is at least as relevant as it is.
pub open spec fn inserted(sorted: Seq<ContextItem>, item: ContextItem) -> Seq<ContextItem>
    decreases sorted.len(),
{
    if sorted.len() == 0 {
        seq![item]
    } else if sorted.last().relevance_score.micros >= item.relevance_score.micros {
        sorted.push(item)
    } else {
        inserted(sorted.drop_last(), item).push(sorted.last())
    }
}

/// The items in the order of their relevance, the most relevant first; items of
/// equal relevance stay in the order in which they came.
pub open spec fn by_relevance(items: Seq<ContextItem>) -> Seq<ContextItem>
    decreases items.len(),
{
    if items.len() == 0 {
        Seq::empty()
    } else {
        inserted(by_relevance(items.drop_last()), items.last())
    }
}

/// No item of the list is followed by a more relevant one.
pub open spec fn is_ordered(items: Seq<ContextItem>) -> bool {
    forall|i: int, j: int|
        0 <= i < j < items.len() ==> (#[trigger] items[i]).relevance_score.micros >= (
        #[trigger] items[j]).relevance_score.micros
}

/// Putting an item in at a place behind which all items are less relevant, and
/// before which the next item is at least as relevant, is putting it in by
/// relevance.
proof fn lemma_inserted_at(sorted: Seq<ContextItem>, item: ContextItem, at: int)
    requires
        0 <= at <= sorted.len(),
        forall|k: int|
            at <= k < sorted.len() ==> (#[trigger] sorted[k]).relevance_score.micros
                < item.relevance_score.micros,
        at > 0 ==> sorted[at - 1].relevance_score.micros >= item.relevance_score.micros,
    ensures
        inserted(sorted, item) == sorted.insert(at, item),
    decreases sorted.len() - at,
{
    if sorted.len() == 0 {
        assert(sorted.insert(at, item) =~= seq![item]);
    } else if at == sorted.len() {
        assert(sorted.insert(at, item) =~= sorted.push(item));
    } else {
        let shorter = sorted.drop_last();
        assert(sorted[sorted.len() - 1].relevance_score.micros < item.relevance_score.micros);
        assert forall|k: int| at <= k < shorter.len() implies (
        #[trigger] shorter[k]).relevance_score.micros < item.relevance_score.micros by {
            assert(shorter[k] == sorted[k]);
        }
        lemma_inserted_at(shorter, item, at);
        assert(shorter.insert(at, item).push(sorted.last()) =~= sorted.insert(at, item));
    }
}

/// Putting an item into an ordered list by relevance leaves the list ordered.
proof fn lemma_inserted_is_ordered(sorted: Seq<ContextItem>, item: ContextItem)
    requires
        is_ordered(sorted),
    ensures
        is_ordered(inserted(sorted, item)),
        inserted(sorted, item).len() == sorted.len() + 1,
        forall|k: int|
            0 <= k < inserted(sorted, item).len() ==> (#[trigger] inserted(sorted, item)[k]
                == item || exists|m: int|
                0 <= m < sorted.len() && sorted[m] == inserted(sorted, item)[k]),
    decreases sorted.len(),
{
    if sorted.len() == 0 {
    } else if sorted.last().relevance_score.micros >= item.relevance_score.micros {
        let r = sorted.push(item);
        assert forall|i: int, j: int| 0 <= i < j < r.len() implies (
        #[trigger] r[i]).relevance_score.micros >= (#[trigger] r[j]).relevance_score.micros by {
            if j == sorted.len() {
                if i < sorted.len() - 1 {
                    assert(sorted[i].relevance_score.micros >= sorted[sorted.len()
                        - 1].relevance_score.micros);
                }
            } else {
                assert(sorted[i].relevance_score.micros >= sorted[j].relevance_score.micros);
            }
        }
        assert forall|k: int| 0 <= k < r.len() implies (#[trigger] r[k] == item || exists|m: int|
            0 <= m < sorted.len() && sorted[m] == r[k]) by {
            if k < sorted.len() {
                assert(sorted[k] == r[k]);
            }
        }
    } else {
        let shorter = sorted.drop_last();
        assert(is_ordered(shorter)) by {
            assert forall|i: int, j: int| 0 <= i < j < shorter.len() implies (
            #[trigger] shorter[i]).relevance_score.micros >= (
            #[trigger] shorter[j]).relevance_score.micros by {
                assert(sorted[i].relevance_score.micros >= sorted[j].relevance_score.micros);
            }
        }
        lemma_inserted_is_ordered(shorter, item);
        let inner = inserted(shorter, item);
        let r = inner.push(sorted.last());
        assert forall|k: int| 0 <= k < r.len() implies (#[trigger] r[k] == item || exists|m: int|
            0 <= m < sorted.len() && sorted[m] == r[k]) by {
            if k < inner.len() {
                if inner[k] != item {
                    let m = choose|m: int| 0 <= m < shorter.len() && shorter[m] == inner[k];
                    assert(sorted[m] == r[k]);
                }
            } else {
                assert(sorted[sorted.len() - 1] == r[k]);
            }
        }
        assert forall|i: int, j: int| 0 <= i < j < r.len() implies (
        #[trigger] r[i]).relevance_score.micros >= (#[trigger] r[j]).relevance_score.micros by {
            if j == inner.len() {
                if inner[i] != item {
                    let m = choose|m: int| 0 <= m < shorter.len() && shorter[m] == inner[i];
                    assert(sorted[m].relevance_score.micros >= sorted[sorted.len()
                        - 1].relevance_score.micros);
                }
            } else {
                assert(inner[i].relevance_score.micros >= inner[j].relevance_score.micros);
            }
        }
    }
}

/// The items in the order of their relevance are ordered, and there are as many
/// of them as before.
pub proof fn law_by_relevance_is_ordered(items: Seq<ContextItem>)
    ensures
        is_ordered(by_relevance(items)),
        by_relevance(items).len() == items.len(),
    decreases items.len(),
{
    if items.len() > 0 {
        law_by_relevance_is_ordered(items.drop_last());
        lemma_inserted_is_ordered(by_relevance(items.drop_last()), items.last());
    }
}

/// Orders retrieved items by relevance, the most relevant first, keeping items
/// of equal relevance in the order in which they came.
pub fn sort_by_relevance(context: Vec<ContextItem>) -> (sorted: Vec<ContextItem>)
    ensures
        sorted@ == by_relevance(context@),
{
    let mut rest = context;
    let mut sorted: Vec<ContextItem> = Vec::new();
    let ghost mut done: int = 0;
    assert(context@.take(0) =~= Seq::<ContextItem>::empty());
    while rest.len() > 0
        invariant
            0 <= done <= context@.len(),
            rest@ == context@.skip(done),
            sorted@ == by_relevance(context@.take(done)),
        decreases rest.len(),
    {
        let item = rest.remove(0);
        proof {
            assert(item == context@[done]);
            assert(rest@ =~= context@.skip(done + 1));
            assert(context@.take(done + 1).drop_last() =~= context@.take(done));
        }
        let mut at: usize = sorted.len();
        while at > 0 && sorted[at - 1].relevance_score.micros < item.relevance_score.micros
            invariant
                at <= sorted.len(),
                forall|k: int|
                    at <= k < sorted.len() ==> (#[trigger] sorted@[k]).relevance_score.micros
                        < item.relevance_score.micros,
            decreases at,
        {
            at = at - 1;
        }
        proof {
            lemma_inserted_at(sorted@, item, at as int);
            done = done + 1;
        }
        sorted.insert(at, item);
    }
    proof {
        assert(context@.take(context@.len() as int) =~= context@);
    }
    sorted
}

} // verus!

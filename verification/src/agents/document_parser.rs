//! The decisions of the document parser: which type a document has and when a
//! model must be asked for it; where a candidate fact was read; and what goes
//! into the store.
//!
//! Asking the model and writing to the store are left to the caller. What is
//! decided before and after is decided here.

use vstd::prelude::*;
use vstd::string::StringExecFns;
use crate::agents::common::new_id;
use crate::decimal::Decimal;
use crate::models::document::{Document, DocumentType};
use crate::models::fact::{
    citation_view,
    BoundingBox,
    NewFact,
    SourceCitation,
    SourceCitationView,
};
use crate::models::output::{all_fragments, fragment_texts, page_text, text_of_page, OCRResult};
use crate::pipeline::fact_extraction::{
    classify_pages_by_rules,
    content,
    page_view,
    type_by_rules,
    Candidate,
    NewFactContent,
};
use crate::services::ai::openai_client::ExtractedFact;
use crate::text::{
    decimal_digits,
    decimal_string,
    from_chars,
    holds,
    is_substring,
    join,
    joined,
    occurs_in,
    owned,
    text_view,
    to_chars,
    views,
};

verus! {

/// A fact with the citation that could be attached to it. A fact without a
/// citation is a valid fact: one that could not be traced, not one that failed.
#[derive(Debug, Clone)]
pub struct ValidatedFact {
    pub fact_type: String,
    pub label: String,
    pub value: String,
    pub unit: Option<String>,
    pub confidence: Decimal,
    pub source_citation: Option<SourceCitation>,
}

/// A `ValidatedFact` as mathematics.
pub struct Validated {
    pub fact_type: Seq<char>,
    pub label: Seq<char>,
    pub value: Seq<char>,
    pub unit: Option<Seq<char>>,
    pub confidence: Decimal,
    pub source_citation: Option<SourceCitationView>,
}

impl View for ValidatedFact {
    type V = Validated;

    open spec fn view(&self) -> Validated {
        Validated {
            fact_type: self.fact_type@,
            label: self.label@,
            value: self.value@,
            unit: text_view(self.unit),
            confidence: self.confidence,
            source_citation: citation_view(self.source_citation),
        }
    }
}

/// The place of the first fragment, from `from` on, whose text holds `text`.
pub open spec fn place_of(fragments: Seq<OCRResult>, text: Seq<char>, from: int) -> Option<
    BoundingBox,
>
    decreases fragments.len() - from,
{
    if from < 0 || from >= fragments.len() {
        None
    } else if is_substring(text, fragments[from].text@) {
        Some(fragments[from].bbox.as_citation_box())
    } else {
        place_of(fragments, text, from + 1)
    }
}

/// The citation for a claimed page and text. There is none where no page is
/// claimed, where the page (counted from 1) is not one of the document's, or
/// where no text is claimed. Otherwise the citation quotes the text and names
/// the page, with the place of the first fragment of that page that holds the
/// text, or without a place where no fragment does.
pub open spec fn citation_for(
    page: Option<int>,
    text: Option<Seq<char>>,
    pages: Seq<Vec<OCRResult>>,
) -> Option<SourceCitationView> {
    match (page, text) {
        (Some(p), Some(t)) => if 1 <= p <= pages.len() {
            Some(
                SourceCitationView {
                    document_page: p,
                    text: t,
                    bbox: place_of(pages[p - 1]@, t, 0),
                },
            )
        } else {
            None
        },
        _ => None,
    }
}

/// The validated fact that a candidate becomes.
pub open spec fn validated_of(c: Candidate, pages: Seq<Vec<OCRResult>>) -> Validated {
    Validated {
        fact_type: c.fact_type,
        label: c.label,
        value: c.value,
        unit: c.unit,
        confidence: c.confidence,
        source_citation: citation_for(c.source_page, c.source_text, pages),
    }
}

/// Finds the place of the first fragment that holds `text`.
fn find_place(fragments: &[OCRResult], text: &str) -> (place: Option<BoundingBox>)
    ensures
        place == place_of(fragments@, text@, 0),
{
    let needle = to_chars(text);
    let mut i: usize = 0;
    while i < fragments.len()
        invariant
            i <= fragments.len(),
            needle@ == text@,
            place_of(fragments@, text@, 0) == place_of(fragments@, text@, i as int),
        decreases fragments.len() - i,
    {
        let hay = to_chars(fragments[i].text.as_str());
        if occurs_in(&needle, &hay) {
            return Some(fragments[i].bbox.to_citation_box());
        }
        i = i + 1;
    }
    None
}

/// Resolves the citation of a candidate fact against the pages of its
/// document.
pub fn resolve_citation(fact: &ExtractedFact, ocr_results: &[Vec<OCRResult>]) -> (citation: Option<
    SourceCitation,
>)
    ensures
        citation_view(citation) == citation_for(
            page_view(fact.source_page),
            text_view(fact.source_text),
            ocr_results@,
        ),
{
    let page_number = match fact.source_page {
        Some(p) => p,
        None => {
            return None;
        },
    };
    if page_number < 1 || page_number as usize > ocr_results.len() {
        return None;
    }
    let source_text = match &fact.source_text {
        Some(t) => t,
        None => {
            return None;
        },
    };
    let page = &ocr_results[(page_number - 1) as usize];
    Some(
        SourceCitation {
            document_page: page_number,
            text: owned(source_text.as_str()),
            bbox: find_place(page.as_slice(), source_text.as_str()),
        },
    )
}

/// Validates candidate facts: each keeps what it says and gets the citation that
/// can be resolved for it. A candidate for which none can be resolved stays, as
/// a fact without citation, and none makes the others fail.
pub fn validate_and_cite_facts(
    facts: Vec<ExtractedFact>,
    ocr_results: &[Vec<OCRResult>],
) -> (validated: Vec<ValidatedFact>)
    ensures
        validated@.len() == facts@.len(),
        forall|i: int|
            0 <= i < facts@.len() ==> (#[trigger] validated@[i])@ == validated_of(
                facts@[i]@,
                ocr_results@,
            ),
{
    let mut validated: Vec<ValidatedFact> = Vec::new();
    let mut i: usize = 0;
    while i < facts.len()
        invariant
            i <= facts.len(),
            validated@.len() == i,
            forall|k: int|
                0 <= k < i ==> (#[trigger] validated@[k])@ == validated_of(
                    facts@[k]@,
                    ocr_results@,
                ),
        decreases facts.len() - i,
    {
        let fact = &facts[i];
        let source_citation = resolve_citation(fact, ocr_results);
        validated.push(
            ValidatedFact {
                fact_type: owned(fact.fact_type.as_str()),
                label: owned(fact.label.as_str()),
                value: owned(fact.value.as_str()),
                unit: match &fact.unit {
                    Some(u) => Some(owned(u.as_str())),
                    None => None,
                },
                confidence: fact.confidence,
                source_citation,
            },
        );
        i = i + 1;
    }
    validated
}

/// Without a claimed page there is no citation; with a page that the document
/// does not have there is none either; and with a page that it has and a text
/// that no fragment of that page holds there is a citation, one without a
/// place.
pub proof fn law_citation_cases(
    p: int,
    t: Seq<char>,
    any_text: Option<Seq<char>>,
    pages: Seq<Vec<OCRResult>>,
)
    ensures
        citation_for(None, any_text, pages) is None,
        !(1 <= p <= pages.len()) ==> citation_for(Some(p), any_text, pages) is None,
        (1 <= p <= pages.len() && (forall|i: int|
            0 <= i < pages[p - 1]@.len() ==> !is_substring(t, #[trigger] pages[p - 1]@[i].text@)))
            ==> citation_for(Some(p), Some(t), pages) is Some && citation_for(
            Some(p),
            Some(t),
            pages,
        )->0.bbox is None,
{
    if 1 <= p <= pages.len() {
        if forall|i: int|
            0 <= i < pages[p - 1]@.len() ==> !is_substring(t, #[trigger] pages[p - 1]@[i].text@) {
            lemma_no_place(pages[p - 1]@, t, 0);
        }
    }
}

/// The first fragment that holds the text gives the place: where a fragment
/// holds it and none before does, the place is that of this fragment.
pub proof fn law_first_fragment_gives_the_place(
    fragments: Seq<OCRResult>,
    text: Seq<char>,
    at: int,
)
    requires
        0 <= at < fragments.len(),
        is_substring(text, fragments[at].text@),
        forall|i: int| 0 <= i < at ==> !is_substring(text, #[trigger] fragments[i].text@),
    ensures
        place_of(fragments, text, 0) == Some(fragments[at].bbox.as_citation_box()),
{
    lemma_place_after(fragments, text, 0, at);
}

/// Fragments that do not hold the text are passed over.
proof fn lemma_place_after(fragments: Seq<OCRResult>, text: Seq<char>, from: int, at: int)
    requires
        0 <= from <= at < fragments.len(),
        forall|i: int| from <= i < at ==> !is_substring(text, #[trigger] fragments[i].text@),
    ensures
        place_of(fragments, text, from) == place_of(fragments, text, at),
    decreases at - from,
{
    if from < at {
        assert(!is_substring(text, fragments[from].text@));
        lemma_place_after(fragments, text, from + 1, at);
    }
}

/// Where no fragment holds the text, no place is found.
proof fn lemma_no_place(fragments: Seq<OCRResult>, text: Seq<char>, from: int)
    requires
        0 <= from,
        forall|i: int|
            0 <= i < fragments.len() ==> !is_substring(text, #[trigger] fragments[i].text@),
    ensures
        place_of(fragments, text, from) is None,
    decreases fragments.len() - from,
{
    if from < fragments.len() {
        lemma_no_place(fragments, text, from + 1);
    }
}

/// What the parser does next about the type of a document.
#[derive(Debug, Clone)]
pub enum ClassificationStep {
    /// The rules of thumb have decided.
    Decided(DocumentType),
    /// No rule matched: the model is to be asked, with this request.
    AskModel(String),
}

/// The first `limit` characters of a text, or all of it where it is shorter.
pub open spec fn truncated(text: Seq<char>, limit: int) -> Seq<char> {
    if text.len() > limit {
        text.take(limit)
    } else {
        text
    }
}

/// The preview of a document that a model is shown: the fragments of its first
/// three pages with a space between each two, cut after 2,000 characters.
pub open spec fn preview_of(pages: Seq<Vec<OCRResult>>) -> Seq<char> {
    truncated(joined(fragment_texts(all_fragments(truncated_pages(pages))), " "@), 2000)
}

/// The first three pages, or all where there are fewer.
pub open spec fn truncated_pages(pages: Seq<Vec<OCRResult>>) -> Seq<Vec<OCRResult>> {
    if pages.len() > 3 {
        pages.take(3)
    } else {
        pages
    }
}

/// The request put to the model that classifies.
pub open spec fn classification_request(file_name: Seq<char>, preview: Seq<char>) -> Seq<char> {
    "File name: "@ + file_name + "\n\nContent preview:\n"@ + preview
}

/// The type that the answer of the model names: the first of rent roll, profit
/// and loss, mortgage statement and tax document whose tag occurs in the
/// answer, and `Other` where none does.
pub open spec fn answered_type(answer: Seq<char>) -> DocumentType {
    if is_substring("RENT_ROLL"@, answer) {
        DocumentType::RentRoll
    } else if is_substring("PROFIT_AND_LOSS"@, answer) {
        DocumentType::ProfitAndLoss
    } else if is_substring("MORTGAGE"@, answer) {
        DocumentType::MortgageStatement
    } else if is_substring("TAX"@, answer) {
        DocumentType::TaxDocument
    } else {
        DocumentType::Other
    }
}

/// Appends the texts of the fragments of a page.
fn push_fragment_texts(parts: &mut Vec<String>, fragments: &[OCRResult])
    ensures
        views(final(parts)@) == views(old(parts)@) + fragment_texts(fragments@),
{
    let mut i: usize = 0;
    assert(views(parts@) =~= views(old(parts)@) + fragment_texts(fragments@.take(0)));
    while i < fragments.len()
        invariant
            i <= fragments.len(),
            views(parts@) == views(old(parts)@) + fragment_texts(fragments@.take(i as int)),
        decreases fragments.len() - i,
    {
        let ghost seen = parts@;
        parts.push(owned(fragments[i].text.as_str()));
        i = i + 1;
        proof {
            assert(fragments@.take(i as int) =~= fragments@.take(i - 1).push(fragments@[i - 1]));
            assert(views(parts@) =~= views(seen).push(fragments@[i - 1].text@));
            assert(views(parts@) =~= views(old(parts)@) + fragment_texts(
                fragments@.take(i as int),
            ));
        }
    }
    proof {
        assert(fragments@.take(fragments.len() as int) =~= fragments@);
    }
}

/// The texts of all fragments of the first `count` pages.
fn texts_of_pages(pages: &[Vec<OCRResult>], count: usize) -> (parts: Vec<String>)
    requires
        count <= pages.len(),
    ensures
        views(parts@) == fragment_texts(all_fragments(pages@.take(count as int))),
{
    let mut parts: Vec<String> = Vec::new();
    let mut p: usize = 0;
    assert(views(parts@) =~= fragment_texts(all_fragments(pages@.take(0))));
    while p < count
        invariant
            p <= count <= pages.len(),
            views(parts@) == fragment_texts(all_fragments(pages@.take(p as int))),
        decreases count - p,
    {
        let ghost seen = views(parts@);
        push_fragment_texts(&mut parts, pages[p].as_slice());
        p = p + 1;
        proof {
            assert(pages@.take(p as int).drop_last() =~= pages@.take(p - 1));
            assert(fragment_texts(all_fragments(pages@.take(p as int))) =~= seen + fragment_texts(
                pages@[p - 1]@,
            ));
        }
    }
    parts
}

/// The preview of a document that a model is shown.
pub fn classification_preview(ocr_results: &[Vec<OCRResult>]) -> (preview: String)
    ensures
        preview@ == preview_of(ocr_results@),
{
    let count: usize = if ocr_results.len() > 3 {
        3
    } else {
        ocr_results.len()
    };
    proof {
        if ocr_results.len() <= 3 {
            assert(ocr_results@.take(count as int) =~= ocr_results@);
        }
    }
    let parts = texts_of_pages(ocr_results, count);
    let text = join(&parts, " ");
    let chars = to_chars(text.as_str());
    if chars.len() > 2000 {
        from_chars(&chars, 0, 2000)
    } else {
        text
    }
}

/// The whole text of a document as a model is shown it for extraction: every
/// fragment on a line of its own.
pub fn extraction_text(ocr_results: &[Vec<OCRResult>]) -> (text: String)
    ensures
        text@ == joined(fragment_texts(all_fragments(ocr_results@)), "\n"@),
{
    proof {
        assert(ocr_results@.take(ocr_results.len() as int) =~= ocr_results@);
    }
    let parts = texts_of_pages(ocr_results, ocr_results.len());
    join(&parts, "\n")
}

/// Decides the type of a document where the rules of thumb can, and words the
/// request to the model where they cannot.
pub fn classify_document(
    document: &Document,
    ocr_results: &[Vec<OCRResult>],
) -> (step: ClassificationStep)
    ensures
        match type_by_rules(document.file_name@, all_fragments(ocr_results@)) {
            Some(t) => step == ClassificationStep::Decided(t),
            None => step matches ClassificationStep::AskModel(request) && request@
                == classification_request(document.file_name@, preview_of(ocr_results@)),
        },
{
    match classify_pages_by_rules(document, ocr_results) {
        Some(t) => ClassificationStep::Decided(t),
        None => {
            let preview = classification_preview(ocr_results);
            let mut request = owned("File name: ");
            request.append(document.file_name.as_str());
            request.append("\n\nContent preview:\n");
            request.append(preview.as_str());
            ClassificationStep::AskModel(request)
        },
    }
}

/// Reads the type of a document from the answer of the model. An answer that
/// names no known type gives `Other`.
pub fn document_type_from_answer(answer: &str) -> (t: DocumentType)
    ensures
        t == answered_type(answer@),
{
    let answer = to_chars(answer);
    if holds(&answer, "RENT_ROLL") {
        DocumentType::RentRoll
    } else if holds(&answer, "PROFIT_AND_LOSS") {
        DocumentType::ProfitAndLoss
    } else if holds(&answer, "MORTGAGE") {
        DocumentType::MortgageStatement
    } else if holds(&answer, "TAX") {
        DocumentType::TaxDocument
    } else {
        DocumentType::Other
    }
}

/// The fact that a validated fact becomes in the store: it belongs to the given
/// document and deal, keeps its citation, and is in need of review.
pub open spec fn fact_of_validated(v: Validated, deal_id: Seq<char>, document_id: Seq<char>)
    -> NewFactContent {
    NewFactContent {
        document_id,
        deal_id,
        fact_type: v.fact_type,
        label: v.label,
        value: v.value,
        unit: v.unit,
        source_citation: v.source_citation,
        status: "needs_review"@,
        confidence_score: Some(v.confidence),
    }
}

/// Turns a validated fact into a new fact of the store, under a fresh
/// identifier.
pub fn new_fact_from_validated(
    fact: ValidatedFact,
    deal_id: &str,
    document_id: &str,
) -> (new_fact: NewFact)
    ensures
        content(new_fact) == fact_of_validated(fact@, deal_id@, document_id@),
{
    NewFact {
        fact_id: new_id(),
        document_id: owned(document_id),
        deal_id: owned(deal_id),
        fact_type: fact.fact_type,
        label: fact.label,
        value: fact.value,
        unit: fact.unit,
        source_citation: fact.source_citation,
        status: owned("needs_review"),
        confidence_score: Some(fact.confidence),
    }
}

/// A piece of text to be embedded, under the identifier it is stored with.
#[derive(Debug, Clone)]
pub struct EmbeddingChunk {
    pub id: String,
    pub text: String,
    /// The page that the text is from, counted from 1; absent for the text of a
    /// fact.
    pub page_number: Option<usize>,
}

/// An `EmbeddingChunk` as mathematics.
pub struct Chunk {
    pub id: Seq<char>,
    pub text: Seq<char>,
    pub page_number: Option<int>,
}

impl View for EmbeddingChunk {
    type V = Chunk;

    open spec fn view(&self) -> Chunk {
        Chunk {
            id: self.id@,
            text: self.text@,
            page_number: match self.page_number {
                Some(n) => Some(n as int),
                None => None,
            },
        }
    }
}

/// Chunks as mathematics.
pub open spec fn chunks_view(chunks: Seq<EmbeddingChunk>) -> Seq<Chunk> {
    chunks.map_values(|c: EmbeddingChunk| c@)
}

/// The chunk of a page: its text, under the document's identifier and the
/// number of the page.
pub open spec fn page_chunk(document_id: Seq<char>, number: int, text: Seq<char>) -> Chunk {
    Chunk {
        id: document_id + "-page-"@ + decimal_digits(number as nat),
        text,
        page_number: Some(number),
    }
}

/// The chunks of the first `count` pages: one for each page that has any text.
pub open spec fn page_chunks_of(document_id: Seq<char>, pages: Seq<Vec<OCRResult>>, count: int)
    -> Seq<Chunk>
    decreases count,
{
    if count <= 0 {
        Seq::empty()
    } else {
        let before = page_chunks_of(document_id, pages, count - 1);
        let text = page_text(pages[count - 1]@);
        if text.len() > 0 {
            before.push(page_chunk(document_id, count, text))
        } else {
            before
        }
    }
}

/// Cuts a document into the chunks that are embedded: the text of each page
/// that has any.
pub fn page_chunks(document_id: &str, ocr_results: &[Vec<OCRResult>]) -> (chunks: Vec<
    EmbeddingChunk,
>)
    ensures
        chunks_view(chunks@) == page_chunks_of(
            document_id@,
            ocr_results@,
            ocr_results@.len() as int,
        ),
{
    let mut chunks: Vec<EmbeddingChunk> = Vec::new();
    let mut i: usize = 0;
    assert(chunks_view(chunks@) =~= page_chunks_of(document_id@, ocr_results@, 0));
    while i < ocr_results.len()
        invariant
            i <= ocr_results.len(),
            chunks_view(chunks@) == page_chunks_of(document_id@, ocr_results@, i as int),
        decreases ocr_results.len() - i,
    {
        let text = text_of_page(ocr_results[i].as_slice());
        let ghost seen = chunks@;
        if !text.as_str().is_empty() {
            let mut id = owned(document_id);
            id.append("-page-");
            id.append(decimal_string((i + 1) as u128).as_str());
            let chunk = EmbeddingChunk { id, text, page_number: Some(i + 1) };
            chunks.push(chunk);
            proof {
                assert(chunks_view(chunks@) =~= chunks_view(seen).push(chunk@));
            }
        }
        i = i + 1;
    }
    chunks
}

/// The text of a fact as it is embedded: its label, a colon, its value and its
/// unit.
pub open spec fn fact_text(v: Validated) -> Seq<char> {
    v.label + ": "@ + v.value + " "@ + (match v.unit {
        Some(u) => u,
        None => Seq::empty(),
    })
}

/// The chunk of the fact at place `index` of its list.
pub open spec fn fact_chunk(document_id: Seq<char>, index: int, v: Validated) -> Chunk {
    Chunk {
        id: document_id + "-fact-"@ + decimal_digits(index as nat),
        text: fact_text(v),
        page_number: None,
    }
}

/// Words the facts of a document for embedding: one chunk for each fact, in
/// order, numbered from 0.
pub fn fact_chunks(document_id: &str, facts: &[ValidatedFact]) -> (chunks: Vec<EmbeddingChunk>)
    ensures
        chunks@.len() == facts@.len(),
        forall|i: int|
            0 <= i < facts@.len() ==> (#[trigger] chunks@[i])@ == fact_chunk(
                document_id@,
                i,
                facts@[i]@,
            ),
{
    let mut chunks: Vec<EmbeddingChunk> = Vec::new();
    let mut i: usize = 0;
    while i < facts.len()
        invariant
            i <= facts.len(),
            chunks@.len() == i,
            forall|k: int|
                0 <= k < i ==> (#[trigger] chunks@[k])@ == fact_chunk(
                    document_id@,
                    k,
                    facts@[k]@,
                ),
        decreases facts.len() - i,
    {
        let fact = &facts[i];
        let mut id = owned(document_id);
        id.append("-fact-");
        id.append(decimal_string(i as u128).as_str());
        let mut text = owned(fact.label.as_str());
        text.append(": ");
        text.append(fact.value.as_str());
        text.append(" ");
        match &fact.unit {
            Some(u) => {
                text.append(u.as_str());
            },
            None => {
                proof {
                    assert(text@ =~= fact_text(fact@));
                }
            },
        }
        chunks.push(EmbeddingChunk { id, text, page_number: None });
        i = i + 1;
    }
    chunks
}

} // verus!

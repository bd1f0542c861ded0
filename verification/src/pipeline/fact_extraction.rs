//! Classification of documents by the rules of thumb, and the extraction of
//! facts by pattern.
//!
//! A document's type is decided by the first rule that matches: rules on the
//! file name come before rules on the text, and within each group the order is
//! fixed.
//!
//! A fact is looked for page by page, and the earliest page on which its
//! pattern matches decides. Thousands separators are stripped from an amount
//! before it is read; a value that then is no number is dropped, and the other
//! facts of the document are extracted all the same.

use vstd::prelude::*;
use crate::agents::common::new_id;
use crate::decimal::{is_plain_number, is_plain_number_text, Decimal};
use crate::models::document::{Document, DocumentType};
use crate::models::fact::{citation_view, FactType, NewFact, SourceCitation, SourceCitationView};
use crate::models::output::{all_fragments, page_text, page_texts, text_of_page, OCRResult};
use crate::services::ai::openai_client::ExtractedFact;
use crate::text::{
    holds,
    if_present,
    is_substring,
    join,
    joined,
    lemma_substring_at,
    lemma_substring_transitive,
    lowercase,
    owned,
    strip_commas,
    text_view,
    to_chars,
    views,
    without_commas,
};

verus! {

/// The type that the rules on file names give to a name in lower case, if any
/// of them matches.
pub open spec fn type_by_file_name(name: Seq<char>) -> Option<DocumentType> {
    if is_substring("rent"@, name) && is_substring("roll"@, name) {
        Some(DocumentType::RentRoll)
    } else if is_substring("p&l"@, name) || is_substring("profit"@, name) || is_substring(
        "loss"@,
        name,
    ) {
        Some(DocumentType::ProfitAndLoss)
    } else if is_substring("mortgage"@, name) || is_substring("loan"@, name) {
        Some(DocumentType::MortgageStatement)
    } else if is_substring("tax"@, name) || is_substring("1099"@, name) || is_substring(
        "1098"@,
        name,
    ) {
        Some(DocumentType::TaxDocument)
    } else if is_substring("bank"@, name) || is_substring("statement"@, name) {
        Some(DocumentType::BankStatement)
    } else {
        None
    }
}

/// The type that the rules on keywords give to a text in lower case, if any of
/// them matches.
pub open spec fn type_by_text(text: Seq<char>) -> Option<DocumentType> {
    if is_substring("rent roll"@, text) || (is_substring("unit"@, text) && is_substring(
        "tenant"@,
        text,
    )) {
        Some(DocumentType::RentRoll)
    } else if is_substring("net operating income"@, text) || is_substring("noi"@, text) {
        Some(DocumentType::ProfitAndLoss)
    } else if is_substring("mortgage"@, text) || (is_substring("principal"@, text)
        && is_substring("interest"@, text)) {
        Some(DocumentType::MortgageStatement)
    } else if is_substring("tax"@, text) || is_substring("form 1099"@, text) || is_substring(
        "form 1098"@,
        text,
    ) {
        Some(DocumentType::TaxDocument)
    } else {
        None
    }
}

/// The texts of fragments, each in lower case.
pub open spec fn lowercase_texts(fragments: Seq<OCRResult>) -> Seq<Seq<char>> {
    fragments.map_values(|r: OCRResult| lowercase(r.text@))
}

/// The text that the keyword rules look at: every fragment in lower case, with
/// a space between each two.
pub open spec fn keyword_text(fragments: Seq<OCRResult>) -> Seq<char> {
    joined(lowercase_texts(fragments), " "@)
}

/// The type that the rules of thumb give to a document, if any of them matches:
/// the rules on the file name in lower case first, then the rules on the text.
pub open spec fn type_by_rules(file_name: Seq<char>, fragments: Seq<OCRResult>) -> Option<
    DocumentType,
> {
    match type_by_file_name(lowercase(file_name)) {
        Some(t) => Some(t),
        None => type_by_text(keyword_text(fragments)),
    }
}

/// The type of a document by the rules of thumb alone: `Other` where no rule
/// matches.
pub open spec fn document_type_of(file_name: Seq<char>, fragments: Seq<OCRResult>)
    -> DocumentType {
    match type_by_rules(file_name, fragments) {
        Some(t) => t,
        None => DocumentType::Other,
    }
}

/// Applies the rules on file names to a name in lower case.
pub fn classify_file_name(name: &str) -> (t: Option<DocumentType>)
    ensures
        t == type_by_file_name(name@),
{
    let name = to_chars(name);
    if holds(&name, "rent") && holds(&name, "roll") {
        Some(DocumentType::RentRoll)
    } else if holds(&name, "p&l") || holds(&name, "profit") || holds(&name, "loss") {
        Some(DocumentType::ProfitAndLoss)
    } else if holds(&name, "mortgage") || holds(&name, "loan") {
        Some(DocumentType::MortgageStatement)
    } else if holds(&name, "tax") || holds(&name, "1099") || holds(&name, "1098") {
        Some(DocumentType::TaxDocument)
    } else if holds(&name, "bank") || holds(&name, "statement") {
        Some(DocumentType::BankStatement)
    } else {
        None
    }
}

/// Applies the rules on keywords to a text in lower case.
pub fn classify_text(text: &str) -> (t: Option<DocumentType>)
    ensures
        t == type_by_text(text@),
{
    let text = to_chars(text);
    if holds(&text, "rent roll") || (holds(&text, "unit") && holds(&text, "tenant")) {
        Some(DocumentType::RentRoll)
    } else if holds(&text, "net operating income") || holds(&text, "noi") {
        Some(DocumentType::ProfitAndLoss)
    } else if holds(&text, "mortgage") || (holds(&text, "principal") && holds(
        &text,
        "interest",
    )) {
        Some(DocumentType::MortgageStatement)
    } else if holds(&text, "tax") || holds(&text, "form 1099") || holds(&text, "form 1098") {
        Some(DocumentType::TaxDocument)
    } else {
        None
    }
}

/// Appends the texts of fragments, each in lower case.
fn push_lowercase_texts(parts: &mut Vec<String>, fragments: &[OCRResult])
    ensures
        views(final(parts)@) == views(old(parts)@) + lowercase_texts(fragments@),
{
    let mut i: usize = 0;
    assert(views(parts@) =~= views(old(parts)@) + lowercase_texts(fragments@.take(0)));
    while i < fragments.len()
        invariant
            i <= fragments.len(),
            views(parts@) == views(old(parts)@) + lowercase_texts(fragments@.take(i as int)),
        decreases fragments.len() - i,
    {
        let ghost seen = parts@;
        parts.push(fragments[i].text.as_str().to_lowercase());
        i = i + 1;
        proof {
            assert(fragments@.take(i as int) =~= fragments@.take(i - 1).push(fragments@[i - 1]));
            assert(views(parts@) =~= views(seen).push(lowercase(fragments@[i - 1].text@)));
            assert(views(parts@) =~= views(old(parts)@) + lowercase_texts(
                fragments@.take(i as int),
            ));
        }
    }
    proof {
        assert(fragments@.take(fragments.len() as int) =~= fragments@);
    }
}

/// Applies the rules of thumb to a document given by its file name and its
/// fragments.
pub fn classify_by_rules(document: &Document, ocr_results: &[OCRResult]) -> (t: Option<
    DocumentType,
>)
    ensures
        t == type_by_rules(document.file_name@, ocr_results@),
{
    let file_name = document.file_name.as_str().to_lowercase();
    match classify_file_name(file_name.as_str()) {
        Some(t) => Some(t),
        None => {
            let mut parts: Vec<String> = Vec::new();
            push_lowercase_texts(&mut parts, ocr_results);
            proof {
                assert(views(parts@) =~= lowercase_texts(ocr_results@));
            }
            let text = join(&parts, " ");
            classify_text(text.as_str())
        },
    }
}

/// Applies the rules of thumb to a document given by its file name and its
/// pages.
pub fn classify_pages_by_rules(document: &Document, pages: &[Vec<OCRResult>]) -> (t: Option<
    DocumentType,
>)
    ensures
        t == type_by_rules(document.file_name@, all_fragments(pages@)),
{
    let file_name = document.file_name.as_str().to_lowercase();
    match classify_file_name(file_name.as_str()) {
        Some(t) => Some(t),
        None => {
            let mut parts: Vec<String> = Vec::new();
            let mut p: usize = 0;
            assert(views(parts@) =~= lowercase_texts(all_fragments(pages@.take(0))));
            while p < pages.len()
                invariant
                    p <= pages.len(),
                    views(parts@) == lowercase_texts(all_fragments(pages@.take(p as int))),
                decreases pages.len() - p,
            {
                let ghost seen = views(parts@);
                push_lowercase_texts(&mut parts, pages[p].as_slice());
                p = p + 1;
                proof {
                    assert(pages@.take(p as int).drop_last() =~= pages@.take(p - 1));
                    assert(lowercase_texts(all_fragments(pages@.take(p as int))) =~= seen
                        + lowercase_texts(pages@[p - 1]@));
                }
            }
            proof {
                assert(pages@.take(pages.len() as int) =~= pages@);
            }
            let text = join(&parts, " ");
            classify_text(text.as_str())
        },
    }
}

/// Classifies a document by its file name and the text of its fragments.
/// Classification never fails: a document that no rule matches is of type
/// `Other`.
pub fn classify_document_type(document: &Document, ocr_results: &[OCRResult]) -> (t: DocumentType)
    ensures
        t == document_type_of(document.file_name@, ocr_results@),
{
    match classify_by_rules(document, ocr_results) {
        Some(t) => t,
        None => DocumentType::Other,
    }
}

/// The file name decides before the text is looked at: a document whose name
/// in lower case holds "rent roll" is a rent roll, whatever its text suggests.
pub proof fn law_file_name_wins(file_name: Seq<char>, fragments: Seq<OCRResult>)
    requires
        is_substring("rent roll"@, lowercase(file_name)),
    ensures
        document_type_of(file_name, fragments) == DocumentType::RentRoll,
{
    reveal_strlit("rent roll");
    reveal_strlit("rent");
    reveal_strlit("roll");
    assert("rent roll"@.subrange(0, 4) =~= "rent"@);
    assert("rent roll"@.subrange(5, 9) =~= "roll"@);
    lemma_substring_at("rent"@, "rent roll"@, 0);
    lemma_substring_at("roll"@, "rent roll"@, 5);
    lemma_substring_transitive("rent"@, "rent roll"@, lowercase(file_name));
    lemma_substring_transitive("roll"@, "rent roll"@, lowercase(file_name));
}

/// What a pattern captures in a text: for the leftmost match of the pattern, the
/// text of each of its groups by index, the whole match being group 0, with
/// `None` for a group that took no part in the match. `None` where the pattern
/// matches nowhere in the text, and where the pattern is not a valid regular
/// expression.
pub uninterp spec fn captured_groups(pattern: Seq<char>, text: Seq<char>) -> Option<
    Seq<Option<Seq<char>>>,
>;

/// Captured groups as mathematics.
pub open spec fn groups_view(groups: Seq<Option<String>>) -> Seq<Option<Seq<char>>> {
    groups.map_values(|g: Option<String>| text_view(g))
}

/// Compiles `pattern` with `Regex::new` and runs `Regex::captures` on `text`. The
/// result is what the pattern captures in the text, each group copied out as a
/// string; how the pattern is matched is left to the regex engine. Of a match
/// it is claimed only that it has its group 0, the whole match, as the engine
/// promises of every match.
#[verifier::external_body]
fn captures(pattern: &str, text: &str) -> (r: Option<Vec<Option<String>>>)
    ensures
        (match r {
            Some(groups) => Some(groups_view(groups@)),
            None => None,
        }) == captured_groups(pattern@, text@),
        r matches Some(groups) ==> groups@.len() > 0 && groups@[0] is Some,
{
    let regex = regex::Regex::new(pattern).ok()?;
    let found = regex.captures(text)?;
    Some(found.iter().map(|group| group.map(|m| m.as_str().to_string())).collect())
}

/// A rule of extraction: the pattern to look for, the group of the pattern that
/// holds the value, and what to say of a fact found by it. The confidence
/// belongs to the rule, not to the match.
#[derive(Debug, Clone, Copy)]
pub struct ExtractionRule {
    pub pattern: &'static str,
    pub value_group: usize,
    pub fact_type: FactType,
    pub label: &'static str,
    pub unit: &'static str,
    pub confidence: Decimal,
    pub strips_commas: bool,
}

/// An `ExtractedFact` as mathematics.
pub struct Candidate {
    pub fact_type: Seq<char>,
    pub label: Seq<char>,
    pub value: Seq<char>,
    pub unit: Option<Seq<char>>,
    pub confidence: Decimal,
    pub source_page: Option<int>,
    pub source_text: Option<Seq<char>>,
}

/// The page number that may be absent, as mathematics.
pub open spec fn page_view(p: Option<i32>) -> Option<int> {
    match p {
        Some(p) => Some(p as int),
        None => None,
    }
}

impl View for ExtractedFact {
    type V = Candidate;

    open spec fn view(&self) -> Candidate {
        Candidate {
            fact_type: self.fact_type@,
            label: self.label@,
            value: self.value@,
            unit: text_view(self.unit),
            confidence: self.confidence,
            source_page: page_view(self.source_page),
            source_text: text_view(self.source_text),
        }
    }
}

/// The view of a candidate that may be absent.
pub open spec fn candidate_view(c: Option<ExtractedFact>) -> Option<Candidate> {
    match c {
        Some(c) => Some(c@),
        None => None,
    }
}

/// The value group of the rule took part in the match.
pub open spec fn has_value(rule: ExtractionRule, groups: Seq<Option<Seq<char>>>) -> bool {
    rule.value_group < groups.len() && groups[rule.value_group as int] is Some
}

/// The value that a rule reads from the groups of a match: the text of its value
/// group, without its commas where the rule strips them.
pub open spec fn value_of(rule: ExtractionRule, groups: Seq<Option<Seq<char>>>) -> Seq<char>
    recommends
        has_value(rule, groups),
{
    let value = groups[rule.value_group as int]->0;
    if rule.strips_commas {
        without_commas(value)
    } else {
        value
    }
}

/// The candidate that a rule makes of the groups captured on a page. There is
/// one exactly where the groups hold the whole match and the value, and the
/// value, after stripping, reads as a number: a value that is no number is
/// dropped. The candidate names the page and quotes the whole match.
pub open spec fn candidate_of_groups(
    rule: ExtractionRule,
    page_number: int,
    groups: Seq<Option<Seq<char>>>,
) -> Option<Candidate> {
    if has_value(rule, groups) && groups[0] is Some && is_plain_number(value_of(rule, groups)) {
        Some(
            Candidate {
                fact_type: rule.fact_type.name(),
                label: rule.label@,
                value: value_of(rule, groups),
                unit: Some(rule.unit@),
                confidence: rule.confidence,
                source_page: Some(page_number),
                source_text: Some(groups[0]->0),
            },
        )
    } else {
        None
    }
}

/// The candidate that a rule finds on one page.
pub open spec fn candidate_on_page(rule: ExtractionRule, page_number: int, text: Seq<char>)
    -> Option<Candidate> {
    match captured_groups(rule.pattern@, text) {
        Some(groups) => candidate_of_groups(rule, page_number, groups),
        None => None,
    }
}

/// The pattern of the rule matches on the page, with its value group.
pub open spec fn matches_on_page(rule: ExtractionRule, text: Seq<char>) -> bool {
    match captured_groups(rule.pattern@, text) {
        Some(groups) => has_value(rule, groups),
        None => false,
    }
}

/// The candidate that a rule finds on the pages from `from` on. The earliest
/// page on which the pattern matches decides: its candidate is the result, and
/// where its value is no number there is none, whatever the later pages hold.
/// Pages are numbered from 1; a page whose number is beyond the largest page
/// number is not looked at.
pub open spec fn candidate_from_page(rule: ExtractionRule, texts: Seq<Seq<char>>, from: int)
    -> Option<Candidate>
    decreases texts.len() - from,
{
    if from < 0 || from >= texts.len() || from >= i32::MAX {
        None
    } else if matches_on_page(rule, texts[from]) {
        candidate_on_page(rule, from + 1, texts[from])
    } else {
        candidate_from_page(rule, texts, from + 1)
    }
}

/// The candidate that a rule finds in a document.
pub open spec fn candidate_in(rule: ExtractionRule, texts: Seq<Seq<char>>) -> Option<Candidate> {
    candidate_from_page(rule, texts, 0)
}

/// The earliest page wins: where the pattern matches on a page and on no page
/// before it, the candidate of the document is that of this page, whatever the
/// later pages hold.
pub proof fn law_earliest_page_wins(rule: ExtractionRule, texts: Seq<Seq<char>>, page: int)
    requires
        0 <= page < texts.len(),
        page < i32::MAX,
        matches_on_page(rule, texts[page]),
        forall|i: int| 0 <= i < page ==> !matches_on_page(rule, #[trigger] texts[i]),
    ensures
        candidate_in(rule, texts) == candidate_on_page(rule, page + 1, texts[page]),
{
    lemma_skips_pages_without_match(rule, texts, 0, page);
}

/// Pages on which the pattern does not match are passed over.
proof fn lemma_skips_pages_without_match(
    rule: ExtractionRule,
    texts: Seq<Seq<char>>,
    from: int,
    page: int,
)
    requires
        0 <= from <= page < texts.len(),
        page < i32::MAX,
        forall|i: int| from <= i < page ==> !matches_on_page(rule, #[trigger] texts[i]),
    ensures
        candidate_from_page(rule, texts, from) == candidate_from_page(rule, texts, page),
    decreases page - from,
{
    if from < page {
        assert(!matches_on_page(rule, texts[from]));
        lemma_skips_pages_without_match(rule, texts, from + 1, page);
    }
}

/// A document on none of whose pages the pattern matches has no candidate.
pub proof fn law_no_match_no_candidate(rule: ExtractionRule, texts: Seq<Seq<char>>)
    requires
        forall|i: int| 0 <= i < texts.len() ==> !matches_on_page(rule, #[trigger] texts[i]),
    ensures
        candidate_in(rule, texts) is None,
{
    lemma_no_match_from(rule, texts, 0);
}

/// From any page on, pages without a match give no candidate.
proof fn lemma_no_match_from(rule: ExtractionRule, texts: Seq<Seq<char>>, from: int)
    requires
        0 <= from,
        forall|i: int| 0 <= i < texts.len() ==> !matches_on_page(rule, #[trigger] texts[i]),
    ensures
        candidate_from_page(rule, texts, from) is None,
    decreases texts.len() - from,
{
    if from < texts.len() && from < i32::MAX {
        assert(!matches_on_page(rule, texts[from]));
        lemma_no_match_from(rule, texts, from + 1);
    }
}

/// What is said of a fact belongs to the rule that found it, not to the match:
/// its type, its label, its unit and its confidence are those of the rule. Its
/// value reads as a number, and its page is one of the document's.
pub proof fn law_rule_describes_the_fact(rule: ExtractionRule, texts: Seq<Seq<char>>)
    requires
        candidate_in(rule, texts) is Some,
    ensures
        candidate_in(rule, texts)->0.fact_type == rule.fact_type.name(),
        candidate_in(rule, texts)->0.label == rule.label@,
        candidate_in(rule, texts)->0.unit == Some(rule.unit@),
        candidate_in(rule, texts)->0.confidence == rule.confidence,
        is_plain_number(candidate_in(rule, texts)->0.value),
        candidate_in(rule, texts)->0.source_page matches Some(p) && 1 <= p <= texts.len(),
        candidate_in(rule, texts)->0.source_text is Some,
{
    lemma_candidate_from_page(rule, texts, 0);
}

/// A candidate found from a page on has what its rule says and lies on one of
/// the pages looked at.
proof fn lemma_candidate_from_page(rule: ExtractionRule, texts: Seq<Seq<char>>, from: int)
    requires
        0 <= from,
        candidate_from_page(rule, texts, from) is Some,
    ensures
        candidate_from_page(rule, texts, from)->0.fact_type == rule.fact_type.name(),
        candidate_from_page(rule, texts, from)->0.label == rule.label@,
        candidate_from_page(rule, texts, from)->0.unit == Some(rule.unit@),
        candidate_from_page(rule, texts, from)->0.confidence == rule.confidence,
        is_plain_number(candidate_from_page(rule, texts, from)->0.value),
        candidate_from_page(rule, texts, from)->0.source_page matches Some(p) && from < p
            <= texts.len(),
        candidate_from_page(rule, texts, from)->0.source_text is Some,
    decreases texts.len() - from,
{
    if from < texts.len() && from < i32::MAX {
        if !matches_on_page(rule, texts[from]) {
            lemma_candidate_from_page(rule, texts, from + 1);
        }
    }
}

/// A value that went through a rule which strips commas holds no comma.
pub proof fn law_stripped_values_hold_no_comma(value: Seq<char>)
    ensures
        !without_commas(value).contains(','),
{
    let kept = without_commas(value);
    if kept.contains(',') {
        let i = choose|i: int| 0 <= i < kept.len() && kept[i] == ',';
        value.lemma_filter_pred(|c: char| c != ',', i);
    }
}

/// Tells whether the value group of the rule took part in a match.
pub fn value_took_part(rule: &ExtractionRule, groups: &Vec<Option<String>>) -> (r: bool)
    ensures
        r == has_value(*rule, groups_view(groups@)),
{
    rule.value_group < groups.len() && groups[rule.value_group].is_some()
}

/// Makes a candidate of the groups that a rule's pattern captured on a page, or
/// none where a group is missing or the value is no number.
pub fn candidate_from_groups(
    rule: &ExtractionRule,
    page_number: i32,
    groups: &Vec<Option<String>>,
) -> (c: Option<ExtractedFact>)
    ensures
        candidate_view(c) == candidate_of_groups(*rule, page_number as int, groups_view(groups@)),
{
    if groups.len() == 0 || rule.value_group >= groups.len() {
        return None;
    }
    let whole = match &groups[0] {
        Some(whole) => whole,
        None => {
            return None;
        },
    };
    let captured = match &groups[rule.value_group] {
        Some(captured) => captured,
        None => {
            return None;
        },
    };
    let value = if rule.strips_commas {
        strip_commas(captured.as_str())
    } else {
        owned(captured.as_str())
    };
    if !is_plain_number_text(value.as_str()) {
        return None;
    }
    Some(
        ExtractedFact {
            fact_type: owned(rule.fact_type.as_str()),
            label: owned(rule.label),
            value,
            unit: Some(owned(rule.unit)),
            confidence: rule.confidence,
            source_page: Some(page_number),
            source_text: Some(owned(whole.as_str())),
        },
    )
}

/// Looks for the fact of a rule, page by page. The earliest page on which the
/// pattern matches decides; a value that is no number is dropped there, and no
/// later page is looked at.
pub fn find_candidate(rule: &ExtractionRule, ocr_results: &[Vec<OCRResult>]) -> (c: Option<
    ExtractedFact,
>)
    ensures
        candidate_view(c) == candidate_in(*rule, page_texts(ocr_results@)),
{
    let ghost texts = page_texts(ocr_results@);
    let mut i: usize = 0;
    while i < ocr_results.len() && i < 2147483647
        invariant
            i <= ocr_results.len(),
            texts == page_texts(ocr_results@),
            candidate_in(*rule, texts) == candidate_from_page(*rule, texts, i as int),
        decreases ocr_results.len() - i,
    {
        let text = text_of_page(ocr_results[i].as_slice());
        proof {
            assert(texts[i as int] == page_text(ocr_results@[i as int]@));
        }
        match captures(rule.pattern, text.as_str()) {
            Some(groups) => {
                if value_took_part(rule, &groups) {
                    return candidate_from_groups(rule, (i + 1) as i32, &groups);
                }
            },
            None => {},
        }
        i = i + 1;
    }
    None
}

/// What a new fact holds besides its identifier.
pub struct NewFactContent {
    pub document_id: Seq<char>,
    pub deal_id: Seq<char>,
    pub fact_type: Seq<char>,
    pub label: Seq<char>,
    pub value: Seq<char>,
    pub unit: Option<Seq<char>>,
    pub source_citation: Option<SourceCitationView>,
    pub status: Seq<char>,
    pub confidence_score: Option<Decimal>,
}

/// What a new fact holds besides its identifier.
pub open spec fn content(fact: NewFact) -> NewFactContent {
    NewFactContent {
        document_id: fact.document_id@,
        deal_id: fact.deal_id@,
        fact_type: fact.fact_type@,
        label: fact.label@,
        value: fact.value@,
        unit: text_view(fact.unit),
        source_citation: citation_view(fact.source_citation),
        status: fact.status@,
        confidence_score: fact.confidence_score,
    }
}

/// What new facts hold besides their identifiers.
pub open spec fn contents(facts: Seq<NewFact>) -> Seq<NewFactContent> {
    facts.map_values(|f: NewFact| content(f))
}

/// The fact that a candidate found by pattern becomes: it belongs to the
/// document and its deal, awaits approval, and cites the page and the text that
/// the candidate names, without a place on the page.
pub open spec fn fact_of_candidate(document: Document, c: Candidate) -> NewFactContent {
    NewFactContent {
        document_id: document.document_id@,
        deal_id: document.deal_id@,
        fact_type: c.fact_type,
        label: c.label,
        value: c.value,
        unit: c.unit,
        source_citation: match (c.source_page, c.source_text) {
            (Some(page), Some(text)) => Some(
                SourceCitationView { document_page: page, text, bbox: None },
            ),
            _ => None,
        },
        status: "pending_approval"@,
        confidence_score: Some(c.confidence),
    }
}

/// What a rule yields for a document, if anything.
pub open spec fn rule_fact(document: Document, rule: ExtractionRule, texts: Seq<Seq<char>>)
    -> Option<NewFactContent> {
    match candidate_in(rule, texts) {
        Some(c) => Some(fact_of_candidate(document, c)),
        None => None,
    }
}

/// The content of a new fact that may be absent.
pub open spec fn content_view(fact: Option<NewFact>) -> Option<NewFactContent> {
    match fact {
        Some(f) => Some(content(f)),
        None => None,
    }
}

/// Turns a candidate found by pattern into a new fact of the document, under a
/// fresh identifier.
pub fn new_fact_from_candidate(document: &Document, candidate: ExtractedFact) -> (fact: NewFact)
    ensures
        content(fact) == fact_of_candidate(*document, candidate@),
{
    let source_citation = match (candidate.source_page, candidate.source_text) {
        (Some(page), Some(text)) => Some(SourceCitation { document_page: page, text, bbox: None }),
        _ => None,
    };
    NewFact {
        fact_id: new_id(),
        document_id: owned(document.document_id.as_str()),
        deal_id: owned(document.deal_id.as_str()),
        fact_type: candidate.fact_type,
        label: candidate.label,
        value: candidate.value,
        unit: candidate.unit,
        source_citation,
        status: owned("pending_approval"),
        confidence_score: Some(candidate.confidence),
    }
}

/// Applies a rule to a document.
pub fn apply_rule(
    rule: &ExtractionRule,
    document: &Document,
    ocr_results: &[Vec<OCRResult>],
) -> (fact: Option<NewFact>)
    ensures
        content_view(fact) == rule_fact(*document, *rule, page_texts(ocr_results@)),
{
    match find_candidate(rule, ocr_results) {
        Some(candidate) => Some(new_fact_from_candidate(document, candidate)),
        None => None,
    }
}

/// Appends a fact that may be absent.
fn push_fact(facts: &mut Vec<NewFact>, fact: Option<NewFact>)
    ensures
        contents(final(facts)@) == contents(old(facts)@) + if_present(content_view(fact)),
{
    match fact {
        Some(f) => {
            facts.push(f);
            proof {
                assert(contents(facts@) =~= contents(old(facts)@) + seq![content(f)]);
            }
        },
        None => {
            proof {
                assert(contents(facts@) =~= contents(old(facts)@)
                    + Seq::<NewFactContent>::empty());
            }
        },
    }
}

/// The rule that finds the number of units.
pub open spec fn unit_count_rule() -> ExtractionRule {
    ExtractionRule {
        pattern: r"(?i)(total\s+units?|unit\s+count)[:\s]+(\d+)",
        value_group: 2,
        fact_type: FactType::UnitCount,
        label: "Unit Count",
        unit: "units",
        confidence: Decimal { micros: 800_000 },
        strips_commas: false,
    }
}

/// Looks for the number of units.
pub fn extract_unit_count(
    document: &Document,
    ocr_results: &[Vec<OCRResult>],
) -> (fact: Option<NewFact>)
    ensures
        content_view(fact) == rule_fact(
            *document,
            unit_count_rule(),
            page_texts(ocr_results@),
        ),
{
    let rule = ExtractionRule {
        pattern: r"(?i)(total\s+units?|unit\s+count)[:\s]+(\d+)",
        value_group: 2,
        fact_type: FactType::UnitCount,
        label: "Unit Count",
        unit: "units",
        confidence: Decimal { micros: 800_000 },
        strips_commas: false,
    };
    apply_rule(&rule, document, ocr_results)
}

/// The rule that finds the occupancy rate.
pub open spec fn occupancy_rate_rule() -> ExtractionRule {
    ExtractionRule {
        pattern: r"(?i)occupancy[:\s]+(\d+\.?\d*)%",
        value_group: 1,
        fact_type: FactType::OccupancyRate,
        label: "Occupancy Rate",
        unit: "%",
        confidence: Decimal { micros: 850_000 },
        strips_commas: false,
    }
}

/// Looks for the occupancy rate.
pub fn extract_occupancy_rate(
    document: &Document,
    ocr_results: &[Vec<OCRResult>],
) -> (fact: Option<NewFact>)
    ensures
        content_view(fact) == rule_fact(
            *document,
            occupancy_rate_rule(),
            page_texts(ocr_results@),
        ),
{
    let rule = ExtractionRule {
        pattern: r"(?i)occupancy[:\s]+(\d+\.?\d*)%",
        value_group: 1,
        fact_type: FactType::OccupancyRate,
        label: "Occupancy Rate",
        unit: "%",
        confidence: Decimal { micros: 850_000 },
        strips_commas: false,
    };
    apply_rule(&rule, document, ocr_results)
}

/// The rule that finds the gross scheduled rent.
pub open spec fn gross_scheduled_rent_rule() -> ExtractionRule {
    ExtractionRule {
        pattern: r"(?i)gross\s+scheduled\s+rent[:\s]+\$?([\d,]+\.?\d*)",
        value_group: 1,
        fact_type: FactType::GrossScheduledRent,
        label: "Gross Scheduled Rent",
        unit: "USD/year",
        confidence: Decimal { micros: 900_000 },
        strips_commas: true,
    }
}

/// Looks for the gross scheduled rent.
pub fn extract_gross_scheduled_rent(
    document: &Document,
    ocr_results: &[Vec<OCRResult>],
) -> (fact: Option<NewFact>)
    ensures
        content_view(fact) == rule_fact(
            *document,
            gross_scheduled_rent_rule(),
            page_texts(ocr_results@),
        ),
{
    let rule = ExtractionRule {
        pattern: r"(?i)gross\s+scheduled\s+rent[:\s]+\$?([\d,]+\.?\d*)",
        value_group: 1,
        fact_type: FactType::GrossScheduledRent,
        label: "Gross Scheduled Rent",
        unit: "USD/year",
        confidence: Decimal { micros: 900_000 },
        strips_commas: true,
    };
    apply_rule(&rule, document, ocr_results)
}

/// The rule that finds the collected rent.
pub open spec fn collected_rent_rule() -> ExtractionRule {
    ExtractionRule {
        pattern: r"(?i)collected\s+rent[:\s]+\$?([\d,]+\.?\d*)",
        value_group: 1,
        fact_type: FactType::CollectedRent,
        label: "Collected Rent",
        unit: "USD/year",
        confidence: Decimal { micros: 900_000 },
        strips_commas: true,
    }
}

/// Looks for the collected rent.
pub fn extract_collected_rent(
    document: &Document,
    ocr_results: &[Vec<OCRResult>],
) -> (fact: Option<NewFact>)
    ensures
        content_view(fact) == rule_fact(
            *document,
            collected_rent_rule(),
            page_texts(ocr_results@),
        ),
{
    let rule = ExtractionRule {
        pattern: r"(?i)collected\s+rent[:\s]+\$?([\d,]+\.?\d*)",
        value_group: 1,
        fact_type: FactType::CollectedRent,
        label: "Collected Rent",
        unit: "USD/year",
        confidence: Decimal { micros: 900_000 },
        strips_commas: true,
    };
    apply_rule(&rule, document, ocr_results)
}

/// The rule that finds the operating expenses.
pub open spec fn operating_expenses_rule() -> ExtractionRule {
    ExtractionRule {
        pattern: r"(?i)(operating\s+expenses?|total\s+expenses?)[:\s]+\$?([\d,]+\.?\d*)",
        value_group: 2,
        fact_type: FactType::OperatingExpenses,
        label: "Operating Expenses",
        unit: "USD/year",
        confidence: Decimal { micros: 850_000 },
        strips_commas: true,
    }
}

/// Looks for the operating expenses.
pub fn extract_operating_expenses(
    document: &Document,
    ocr_results: &[Vec<OCRResult>],
) -> (fact: Option<NewFact>)
    ensures
        content_view(fact) == rule_fact(
            *document,
            operating_expenses_rule(),
            page_texts(ocr_results@),
        ),
{
    let rule = ExtractionRule {
        pattern: r"(?i)(operating\s+expenses?|total\s+expenses?)[:\s]+\$?([\d,]+\.?\d*)",
        value_group: 2,
        fact_type: FactType::OperatingExpenses,
        label: "Operating Expenses",
        unit: "USD/year",
        confidence: Decimal { micros: 850_000 },
        strips_commas: true,
    };
    apply_rule(&rule, document, ocr_results)
}

/// The rule that finds the net operating income.
pub open spec fn noi_rule() -> ExtractionRule {
    ExtractionRule {
        pattern: r"(?i)(net\s+operating\s+income|noi)[:\s]+\$?([\d,]+\.?\d*)",
        value_group: 2,
        fact_type: FactType::NetOperatingIncome,
        label: "Net Operating Income",
        unit: "USD/year",
        confidence: Decimal { micros: 950_000 },
        strips_commas: true,
    }
}

/// Looks for the net operating income.
pub fn extract_noi(
    document: &Document,
    ocr_results: &[Vec<OCRResult>],
) -> (fact: Option<NewFact>)
    ensures
        content_view(fact) == rule_fact(
            *document,
            noi_rule(),
            page_texts(ocr_results@),
        ),
{
    let rule = ExtractionRule {
        pattern: r"(?i)(net\s+operating\s+income|noi)[:\s]+\$?([\d,]+\.?\d*)",
        value_group: 2,
        fact_type: FactType::NetOperatingIncome,
        label: "Net Operating Income",
        unit: "USD/year",
        confidence: Decimal { micros: 950_000 },
        strips_commas: true,
    };
    apply_rule(&rule, document, ocr_results)
}

/// The rule that finds the collected rent where a statement calls it rental income.
pub open spec fn rental_income_rule() -> ExtractionRule {
    ExtractionRule {
        pattern: r"(?i)rental\s+income[:\s]+\$?([\d,]+\.?\d*)",
        value_group: 1,
        fact_type: FactType::CollectedRent,
        label: "Collected Rent",
        unit: "USD/year",
        confidence: Decimal { micros: 850_000 },
        strips_commas: true,
    }
}

/// Looks for the collected rent where a statement calls it rental income.
pub fn extract_rental_income(
    document: &Document,
    ocr_results: &[Vec<OCRResult>],
) -> (fact: Option<NewFact>)
    ensures
        content_view(fact) == rule_fact(
            *document,
            rental_income_rule(),
            page_texts(ocr_results@),
        ),
{
    let rule = ExtractionRule {
        pattern: r"(?i)rental\s+income[:\s]+\$?([\d,]+\.?\d*)",
        value_group: 1,
        fact_type: FactType::CollectedRent,
        label: "Collected Rent",
        unit: "USD/year",
        confidence: Decimal { micros: 850_000 },
        strips_commas: true,
    };
    apply_rule(&rule, document, ocr_results)
}

/// The rule that finds the mortgage balance.
pub open spec fn mortgage_balance_rule() -> ExtractionRule {
    ExtractionRule {
        pattern: r"(?i)(principal\s+balance|outstanding\s+balance|loan\s+balance)[:\s]+\$?([\d,]+\.?\d*)",
        value_group: 2,
        fact_type: FactType::MortgageBalance,
        label: "Mortgage Balance",
        unit: "USD",
        confidence: Decimal { micros: 900_000 },
        strips_commas: true,
    }
}

/// Looks for the mortgage balance.
pub fn extract_mortgage_balance(
    document: &Document,
    ocr_results: &[Vec<OCRResult>],
) -> (fact: Option<NewFact>)
    ensures
        content_view(fact) == rule_fact(
            *document,
            mortgage_balance_rule(),
            page_texts(ocr_results@),
        ),
{
    let rule = ExtractionRule {
        pattern: r"(?i)(principal\s+balance|outstanding\s+balance|loan\s+balance)[:\s]+\$?([\d,]+\.?\d*)",
        value_group: 2,
        fact_type: FactType::MortgageBalance,
        label: "Mortgage Balance",
        unit: "USD",
        confidence: Decimal { micros: 900_000 },
        strips_commas: true,
    };
    apply_rule(&rule, document, ocr_results)
}

/// The rule that finds the interest rate.
pub open spec fn interest_rate_rule() -> ExtractionRule {
    ExtractionRule {
        pattern: r"(?i)interest\s+rate[:\s]+(\d+\.?\d*)%",
        value_group: 1,
        fact_type: FactType::InterestRate,
        label: "Interest Rate",
        unit: "%",
        confidence: Decimal { micros: 950_000 },
        strips_commas: false,
    }
}

/// Looks for the interest rate.
pub fn extract_interest_rate(
    document: &Document,
    ocr_results: &[Vec<OCRResult>],
) -> (fact: Option<NewFact>)
    ensures
        content_view(fact) == rule_fact(
            *document,
            interest_rate_rule(),
            page_texts(ocr_results@),
        ),
{
    let rule = ExtractionRule {
        pattern: r"(?i)interest\s+rate[:\s]+(\d+\.?\d*)%",
        value_group: 1,
        fact_type: FactType::InterestRate,
        label: "Interest Rate",
        unit: "%",
        confidence: Decimal { micros: 950_000 },
        strips_commas: false,
    };
    apply_rule(&rule, document, ocr_results)
}

/// The rule that finds the debt service.
pub open spec fn debt_service_rule() -> ExtractionRule {
    ExtractionRule {
        pattern: r"(?i)(monthly\s+payment|debt\s+service)[:\s]+\$?([\d,]+\.?\d*)",
        value_group: 2,
        fact_type: FactType::DebtService,
        label: "Debt Service",
        unit: "USD/month",
        confidence: Decimal { micros: 900_000 },
        strips_commas: true,
    }
}

/// Looks for the debt service.
pub fn extract_debt_service(
    document: &Document,
    ocr_results: &[Vec<OCRResult>],
) -> (fact: Option<NewFact>)
    ensures
        content_view(fact) == rule_fact(
            *document,
            debt_service_rule(),
            page_texts(ocr_results@),
        ),
{
    let rule = ExtractionRule {
        pattern: r"(?i)(monthly\s+payment|debt\s+service)[:\s]+\$?([\d,]+\.?\d*)",
        value_group: 2,
        fact_type: FactType::DebtService,
        label: "Debt Service",
        unit: "USD/month",
        confidence: Decimal { micros: 900_000 },
        strips_commas: true,
    };
    apply_rule(&rule, document, ocr_results)
}

/// The rule that finds the property value.
pub open spec fn property_value_rule() -> ExtractionRule {
    ExtractionRule {
        pattern: r"(?i)(assessed\s+value|property\s+value|market\s+value)[:\s]+\$?([\d,]+\.?\d*)",
        value_group: 2,
        fact_type: FactType::PropertyValue,
        label: "Property Value",
        unit: "USD",
        confidence: Decimal { micros: 800_000 },
        strips_commas: true,
    }
}

/// Looks for the property value.
pub fn extract_property_value(
    document: &Document,
    ocr_results: &[Vec<OCRResult>],
) -> (fact: Option<NewFact>)
    ensures
        content_view(fact) == rule_fact(
            *document,
            property_value_rule(),
            page_texts(ocr_results@),
        ),
{
    let rule = ExtractionRule {
        pattern: r"(?i)(assessed\s+value|property\s+value|market\s+value)[:\s]+\$?([\d,]+\.?\d*)",
        value_group: 2,
        fact_type: FactType::PropertyValue,
        label: "Property Value",
        unit: "USD",
        confidence: Decimal { micros: 800_000 },
        strips_commas: true,
    };
    apply_rule(&rule, document, ocr_results)
}

/// What a rent roll yields: the number of units, the occupancy rate, the gross
/// scheduled rent and the
/// collected rent, each where it is found.
pub open spec fn rent_roll_facts(document: Document, texts: Seq<Seq<char>>) -> Seq<NewFactContent> {
    if_present(rule_fact(document, unit_count_rule(), texts))
        + if_present(rule_fact(document, occupancy_rate_rule(), texts))
        + if_present(rule_fact(document, gross_scheduled_rent_rule(), texts))
        + if_present(rule_fact(document, collected_rent_rule(), texts))
}

/// Extracts the facts of a rent roll.
pub fn extract_rent_roll_facts(
    document: &Document,
    ocr_results: &[Vec<OCRResult>],
) -> (facts: Vec<NewFact>)
    ensures
        contents(facts@) == rent_roll_facts(*document, page_texts(ocr_results@)),
{
    let mut facts: Vec<NewFact> = Vec::new();
    assert(contents(facts@) =~= Seq::<NewFactContent>::empty());
    push_fact(&mut facts, extract_unit_count(document, ocr_results));
    push_fact(&mut facts, extract_occupancy_rate(document, ocr_results));
    push_fact(&mut facts, extract_gross_scheduled_rent(document, ocr_results));
    push_fact(&mut facts, extract_collected_rent(document, ocr_results));
    proof {
        assert(contents(facts@) =~= rent_roll_facts(*document, page_texts(ocr_results@)));
    }
    facts
}

/// What a profit and loss statement yields: the operating expenses, the net
/// operating income and the collected rent
/// (under the name of rental income), each where it is found.
pub open spec fn pl_facts(document: Document, texts: Seq<Seq<char>>) -> Seq<NewFactContent> {
    if_present(rule_fact(document, operating_expenses_rule(), texts))
        + if_present(rule_fact(document, noi_rule(), texts))
        + if_present(rule_fact(document, rental_income_rule(), texts))
}

/// Extracts the facts of a profit and loss statement.
pub fn extract_pl_facts(
    document: &Document,
    ocr_results: &[Vec<OCRResult>],
) -> (facts: Vec<NewFact>)
    ensures
        contents(facts@) == pl_facts(*document, page_texts(ocr_results@)),
{
    let mut facts: Vec<NewFact> = Vec::new();
    assert(contents(facts@) =~= Seq::<NewFactContent>::empty());
    push_fact(&mut facts, extract_operating_expenses(document, ocr_results));
    push_fact(&mut facts, extract_noi(document, ocr_results));
    push_fact(&mut facts, extract_rental_income(document, ocr_results));
    proof {
        assert(contents(facts@) =~= pl_facts(*document, page_texts(ocr_results@)));
    }
    facts
}

/// What a mortgage statement yields: the mortgage balance, the interest rate
/// and the debt service, each where it is found.
pub open spec fn mortgage_facts(document: Document, texts: Seq<Seq<char>>) -> Seq<NewFactContent> {
    if_present(rule_fact(document, mortgage_balance_rule(), texts))
        + if_present(rule_fact(document, interest_rate_rule(), texts))
        + if_present(rule_fact(document, debt_service_rule(), texts))
}

/// Extracts the facts of a mortgage statement.
pub fn extract_mortgage_facts(
    document: &Document,
    ocr_results: &[Vec<OCRResult>],
) -> (facts: Vec<NewFact>)
    ensures
        contents(facts@) == mortgage_facts(*document, page_texts(ocr_results@)),
{
    let mut facts: Vec<NewFact> = Vec::new();
    assert(contents(facts@) =~= Seq::<NewFactContent>::empty());
    push_fact(&mut facts, extract_mortgage_balance(document, ocr_results));
    push_fact(&mut facts, extract_interest_rate(document, ocr_results));
    push_fact(&mut facts, extract_debt_service(document, ocr_results));
    proof {
        assert(contents(facts@) =~= mortgage_facts(*document, page_texts(ocr_results@)));
    }
    facts
}

/// What a tax document yields: the property value, each where it is found.
pub open spec fn tax_facts(document: Document, texts: Seq<Seq<char>>) -> Seq<NewFactContent> {
    if_present(rule_fact(document, property_value_rule(), texts))
}

/// Extracts the facts of a tax document.
pub fn extract_tax_facts(
    document: &Document,
    ocr_results: &[Vec<OCRResult>],
) -> (facts: Vec<NewFact>)
    ensures
        contents(facts@) == tax_facts(*document, page_texts(ocr_results@)),
{
    let mut facts: Vec<NewFact> = Vec::new();
    assert(contents(facts@) =~= Seq::<NewFactContent>::empty());
    push_fact(&mut facts, extract_property_value(document, ocr_results));
    proof {
        assert(contents(facts@) =~= tax_facts(*document, page_texts(ocr_results@)));
    }
    facts
}

/// What a document yields: the facts that belong to its type, the type being
/// decided by the rules of thumb on the file name and on all of the text; nothing
/// for a type that has no rules of extraction.
pub open spec fn document_facts(document: Document, pages: Seq<Vec<OCRResult>>) -> Seq<
    NewFactContent,
> {
    match document_type_of(document.file_name@, all_fragments(pages)) {
        DocumentType::RentRoll => rent_roll_facts(document, page_texts(pages)),
        DocumentType::ProfitAndLoss => pl_facts(document, page_texts(pages)),
        DocumentType::MortgageStatement => mortgage_facts(document, page_texts(pages)),
        DocumentType::TaxDocument => tax_facts(document, page_texts(pages)),
        _ => Seq::empty(),
    }
}

/// Extracts the facts of a document according to its type.
pub fn extract_facts_from_document(
    document: &Document,
    ocr_results: &[Vec<OCRResult>],
) -> (facts: Vec<NewFact>)
    ensures
        contents(facts@) == document_facts(*document, ocr_results@),
{
    let document_type = match classify_pages_by_rules(document, ocr_results) {
        Some(t) => t,
        None => DocumentType::Other,
    };
    match document_type {
        DocumentType::RentRoll => extract_rent_roll_facts(document, ocr_results),
        DocumentType::ProfitAndLoss => extract_pl_facts(document, ocr_results),
        DocumentType::MortgageStatement => extract_mortgage_facts(document, ocr_results),
        DocumentType::TaxDocument => extract_tax_facts(document, ocr_results),
        _ => {
            let facts: Vec<NewFact> = Vec::new();
            assert(contents(facts@) =~= Seq::<NewFactContent>::empty());
            facts
        },
    }
}

} // verus!

//! The decisions behind the handlers of a deal: what a new deal and a new
//! document look like, and how the approved facts of a deal become the input of
//! an underwriting.

use vstd::prelude::*;
use crate::agents::common::new_id;
use crate::decimal::{decimal_text_value, i32_text_value, parse_i32, Decimal};
use crate::models::deal::NewDeal;
use crate::models::document::NewDocument;
use crate::models::fact::Fact;
use crate::services::underwriting::{
    calculate_underwriting_from,
    figure,
    underwriting_from,
    InputSources,
    Sources,
    UnderwritingInput,
    UnderwritingResult,
};
use crate::text::{owned, text_view};

verus! {

/// Why an underwriting could not be started.
#[derive(Debug, Clone, Copy, PartialEq, Eq, Structural)]
pub enum UnderwritingError {
    /// No approved fact gives the collected rent, or none gives the operating
    /// expenses.
    MissingRequiredFacts,
}

impl UnderwritingError {
    /// The text of the error.
    pub fn to_text(&self) -> (s: String)
        ensures
            s@ == "Missing required facts: collected_rent and operating_expenses"@,
    {
        owned("Missing required facts: collected_rent and operating_expenses")
    }
}

/// A fact that an underwriting may read: approved and locked.
pub open spec fn is_settled(f: Fact) -> bool {
    f.status@ == "approved"@ && f.locked
}

/// The figure that the facts give for a type: that of the last settled fact of
/// the type whose value reads as a decimal number. A fact whose value does not
/// read as one is passed over.
pub open spec fn latest_figure(facts: Seq<Fact>, kind: Seq<char>) -> Option<int>
    decreases facts.len(),
{
    if facts.len() == 0 {
        None
    } else {
        let f = facts.last();
        if is_settled(f) && f.fact_type@ == kind && decimal_text_value(f.value@) is Some {
            decimal_text_value(f.value@)
        } else {
            latest_figure(facts.drop_last(), kind)
        }
    }
}

/// The count that the facts give for a type: that of the last settled fact of
/// the type whose value reads as a whole number.
pub open spec fn latest_count(facts: Seq<Fact>, kind: Seq<char>) -> Option<int>
    decreases facts.len(),
{
    if facts.len() == 0 {
        None
    } else {
        let f = facts.last();
        if is_settled(f) && f.fact_type@ == kind && i32_text_value(f.value@) is Some {
            i32_text_value(f.value@)
        } else {
            latest_count(facts.drop_last(), kind)
        }
    }
}

/// The fact that the figure of a type was read from: the last settled fact of
/// the type whose value reads as a decimal number, by its identifier.
pub open spec fn latest_source(facts: Seq<Fact>, kind: Seq<char>) -> Option<Seq<char>>
    decreases facts.len(),
{
    if facts.len() == 0 {
        None
    } else {
        let f = facts.last();
        if is_settled(f) && f.fact_type@ == kind && decimal_text_value(f.value@) is Some {
            Some(f.fact_id@)
        } else {
            latest_source(facts.drop_last(), kind)
        }
    }
}

/// The facts that the figures of an underwriting were read from.
pub open spec fn sources_of(facts: Seq<Fact>) -> Sources {
    Sources {
        gross_scheduled_rent: latest_source(facts, "gross_scheduled_rent"@),
        collected_rent: latest_source(facts, "collected_rent"@),
        operating_expenses: latest_source(facts, "operating_expenses"@),
        debt_service: latest_source(facts, "debt_service"@),
        property_value: latest_source(facts, "property_value"@),
        mortgage_balance: latest_source(facts, "mortgage_balance"@),
    }
}

/// The facts give both figures that an underwriting cannot do without.
pub open spec fn has_required_facts(facts: Seq<Fact>) -> bool {
    latest_figure(facts, "collected_rent"@) is Some && latest_figure(
        facts,
        "operating_expenses"@,
    ) is Some
}

/// The input of an underwriting agrees with the facts in every figure.
pub open spec fn agrees(input: UnderwritingInput, facts: Seq<Fact>) -> bool {
    &&& (match input.unit_count {
        Some(n) => Some(n as int),
        None => None,
    }) == latest_count(facts, "unit_count"@)
    &&& figure(input.occupancy_rate) == latest_figure(facts, "occupancy_rate"@)
    &&& figure(input.gross_scheduled_rent) == latest_figure(facts, "gross_scheduled_rent"@)
    &&& Some(input.collected_rent.micros as int) == latest_figure(facts, "collected_rent"@)
    &&& Some(input.operating_expenses.micros as int) == latest_figure(
        facts,
        "operating_expenses"@,
    )
    &&& figure(input.debt_service) == latest_figure(facts, "debt_service"@)
    &&& figure(input.property_value) == latest_figure(facts, "property_value"@)
    &&& figure(input.mortgage_balance) == latest_figure(facts, "mortgage_balance"@)
    &&& figure(input.interest_rate) == latest_figure(facts, "interest_rate"@)
}

/// Tells whether a fact is approved and locked.
fn settled(fact: &Fact) -> (r: bool)
    ensures
        r == is_settled(*fact),
{
    fact.locked && fact.status.as_str().eq("approved")
}

/// Reads the figure that the facts give for a type.
pub fn read_figure(facts: &[Fact], kind: &str) -> (r: Option<Decimal>)
    ensures
        figure(r) == latest_figure(facts@, kind@),
        r matches Some(d) ==> d.in_range(),
{
    let mut found: Option<Decimal> = None;
    let mut i: usize = 0;
    while i < facts.len()
        invariant
            i <= facts.len(),
            figure(found) == latest_figure(facts@.take(i as int), kind@),
            found matches Some(d) ==> d.in_range(),
        decreases facts.len() - i,
    {
        let fact = &facts[i];
        proof {
            assert(facts@.take(i + 1).drop_last() =~= facts@.take(i as int));
            assert(facts@.take(i + 1).last() == facts@[i as int]);
        }
        if settled(fact) && fact.fact_type.as_str().eq(kind) {
            match Decimal::parse(fact.value.as_str()) {
                Some(d) => {
                    found = Some(d);
                },
                None => {},
            }
        }
        i = i + 1;
    }
    proof {
        assert(facts@.take(facts.len() as int) =~= facts@);
    }
    found
}

/// Finds the fact that the figure of a type is read from.
pub fn read_source(facts: &[Fact], kind: &str) -> (r: Option<String>)
    ensures
        text_view(r) == latest_source(facts@, kind@),
{
    let mut found: Option<String> = None;
    let mut i: usize = 0;
    while i < facts.len()
        invariant
            i <= facts.len(),
            text_view(found) == latest_source(facts@.take(i as int), kind@),
        decreases facts.len() - i,
    {
        let fact = &facts[i];
        proof {
            assert(facts@.take(i + 1).drop_last() =~= facts@.take(i as int));
            assert(facts@.take(i + 1).last() == facts@[i as int]);
        }
        if settled(fact) && fact.fact_type.as_str().eq(kind) {
            if Decimal::parse(fact.value.as_str()).is_some() {
                found = Some(owned(fact.fact_id.as_str()));
            }
        }
        i = i + 1;
    }
    proof {
        assert(facts@.take(facts.len() as int) =~= facts@);
    }
    found
}

/// Finds the facts that the figures of an underwriting are read from.
pub fn underwriting_sources_from_facts(facts: &[Fact]) -> (sources: InputSources)
    ensures
        sources@ == sources_of(facts@),
{
    InputSources {
        gross_scheduled_rent: read_source(facts, "gross_scheduled_rent"),
        collected_rent: read_source(facts, "collected_rent"),
        operating_expenses: read_source(facts, "operating_expenses"),
        debt_service: read_source(facts, "debt_service"),
        property_value: read_source(facts, "property_value"),
        mortgage_balance: read_source(facts, "mortgage_balance"),
    }
}

/// Reads the count that the facts give for a type.
pub fn read_count(facts: &[Fact], kind: &str) -> (r: Option<i32>)
    ensures
        (match r {
            Some(n) => Some(n as int),
            None => None,
        }) == latest_count(facts@, kind@),
{
    let mut found: Option<i32> = None;
    let mut i: usize = 0;
    while i < facts.len()
        invariant
            i <= facts.len(),
            (match found {
                Some(n) => Some(n as int),
                None => None,
            }) == latest_count(facts@.take(i as int), kind@),
        decreases facts.len() - i,
    {
        let fact = &facts[i];
        proof {
            assert(facts@.take(i + 1).drop_last() =~= facts@.take(i as int));
            assert(facts@.take(i + 1).last() == facts@[i as int]);
        }
        if settled(fact) && fact.fact_type.as_str().eq(kind) {
            match parse_i32(fact.value.as_str()) {
                Some(n) => {
                    found = Some(n);
                },
                None => {},
            }
        }
        i = i + 1;
    }
    proof {
        assert(facts@.take(facts.len() as int) =~= facts@);
    }
    found
}

/// Builds the input of an underwriting from the facts of a deal. It succeeds
/// exactly when the facts give the collected rent and the operating expenses;
/// the input then agrees with the facts in every figure and is within the range
/// that the calculation asks for.
pub fn underwriting_input_from_facts(facts: &[Fact]) -> (r: Result<
    UnderwritingInput,
    UnderwritingError,
>)
    ensures
        r is Ok <==> has_required_facts(facts@),
        r matches Ok(input) ==> agrees(input, facts@) && input.in_range(),
{
    let unit_count = read_count(facts, "unit_count");
    let occupancy_rate = read_figure(facts, "occupancy_rate");
    let gross_scheduled_rent = read_figure(facts, "gross_scheduled_rent");
    let collected_rent = read_figure(facts, "collected_rent");
    let operating_expenses = read_figure(facts, "operating_expenses");
    let debt_service = read_figure(facts, "debt_service");
    let property_value = read_figure(facts, "property_value");
    let mortgage_balance = read_figure(facts, "mortgage_balance");
    let interest_rate = read_figure(facts, "interest_rate");
    match (collected_rent, operating_expenses) {
        (Some(collected_rent), Some(operating_expenses)) => Ok(
            UnderwritingInput {
                unit_count,
                occupancy_rate,
                gross_scheduled_rent,
                collected_rent,
                operating_expenses,
                debt_service,
                property_value,
                mortgage_balance,
                interest_rate,
            },
        ),
        _ => Err(UnderwritingError::MissingRequiredFacts),
    }
}

/// Underwrites a deal from its facts: the result of the calculation on the
/// input that the facts give, each step naming the facts behind it; or the
/// refusal where a required fact is missing.
pub fn underwrite_facts(facts: &[Fact]) -> (r: Result<UnderwritingResult, UnderwritingError>)
    ensures
        r is Ok <==> has_required_facts(facts@),
        r matches Ok(result) ==> exists|input: UnderwritingInput|
            agrees(input, facts@) && result@ == underwriting_from(input, sources_of(facts@)),
{
    match underwriting_input_from_facts(facts) {
        Ok(input) => {
            let sources = underwriting_sources_from_facts(facts);
            Ok(calculate_underwriting_from(input, &sources))
        },
        Err(e) => Err(e),
    }
}

/// A new deal of a user: a draft under a fresh identifier.
pub fn new_deal(user_id: String, deal_name: String) -> (deal: NewDeal)
    ensures
        deal.user_id == user_id,
        deal.deal_name == deal_name,
        deal.status@ == "draft"@,
        deal.metadata is None,
{
    NewDeal { deal_id: new_id(), user_id, deal_name, status: owned("draft"), metadata: None }
}

/// The record of a file that was uploaded to a deal: pending, under a fresh
/// identifier, and named "unknown" where the upload gave no name.
pub fn new_document(deal_id: &str, file_name: Option<String>, document_type: &str) -> (document:
    NewDocument)
    ensures
        document.deal_id@ == deal_id@,
        document.file_name@ == (match file_name {
            Some(name) => name@,
            None => "unknown"@,
        }),
        document.document_type@ == document_type@,
        document.status@ == "pending"@,
        document.storage_location is None,
        document.page_count is None,
        document.ocr_output is None,
{
    NewDocument {
        document_id: new_id(),
        deal_id: owned(deal_id),
        file_name: match file_name {
            Some(name) => name,
            None => owned("unknown"),
        },
        document_type: owned(document_type),
        status: owned("pending"),
        storage_location: None,
        page_count: None,
        ocr_output: None,
    }
}

} // verus!

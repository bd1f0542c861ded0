//! Facts: what was read from a document, where it was read, and whether a person
//! has approved it.
//!
//! A fact that is locked is fixed: no edit reaches its value or its unit. Only a
//! reset unlocks it.

use vstd::prelude::*;
use crate::decimal::Decimal;
use crate::text::{owned, text_view};

verus! {

/// A rectangle on a page.
#[derive(Debug, Clone, Copy, PartialEq, Eq, Structural)]
pub struct BoundingBox {
    pub left: Decimal,
    pub top: Decimal,
    pub width: Decimal,
    pub height: Decimal,
}

/// Where a fact was read: the page (counted from 1), the text quoted from it,
/// and the place of that text on the page where it could be found.
#[derive(Debug, Clone)]
pub struct SourceCitation {
    pub document_page: i32,
    pub text: String,
    pub bbox: Option<BoundingBox>,
}

/// A `SourceCitation` as mathematics.
pub struct SourceCitationView {
    pub document_page: int,
    pub text: Seq<char>,
    pub bbox: Option<BoundingBox>,
}

impl View for SourceCitation {
    type V = SourceCitationView;

    open spec fn view(&self) -> SourceCitationView {
        SourceCitationView {
            document_page: self.document_page as int,
            text: self.text@,
            bbox: self.bbox,
        }
    }
}

/// The view of a citation that may be absent.
pub open spec fn citation_view(c: Option<SourceCitation>) -> Option<SourceCitationView> {
    match c {
        Some(c) => Some(c@),
        None => None,
    }
}

/// The kinds of fact.
#[derive(Debug, Clone, Copy, PartialEq, Eq, Structural)]
pub enum FactType {
    UnitCount,
    OccupancyRate,
    GrossScheduledRent,
    CollectedRent,
    OperatingExpenses,
    NetOperatingIncome,
    DebtService,
    PropertyValue,
    MortgageBalance,
    InterestRate,
    Other,
}

impl FactType {
    /// The name under which a kind of fact is stored.
    pub open spec fn name(self) -> Seq<char> {
        match self {
            FactType::UnitCount => "unit_count"@,
            FactType::OccupancyRate => "occupancy_rate"@,
            FactType::GrossScheduledRent => "gross_scheduled_rent"@,
            FactType::CollectedRent => "collected_rent"@,
            FactType::OperatingExpenses => "operating_expenses"@,
            FactType::NetOperatingIncome => "net_operating_income"@,
            FactType::DebtService => "debt_service"@,
            FactType::PropertyValue => "property_value"@,
            FactType::MortgageBalance => "mortgage_balance"@,
            FactType::InterestRate => "interest_rate"@,
            FactType::Other => "other"@,
        }
    }

    /// The kind of fact that a name stands for, if any.
    pub open spec fn named(s: Seq<char>) -> Option<FactType> {
        if s == "unit_count"@ {
            Some(FactType::UnitCount)
        } else if s == "occupancy_rate"@ {
            Some(FactType::OccupancyRate)
        } else if s == "gross_scheduled_rent"@ {
            Some(FactType::GrossScheduledRent)
        } else if s == "collected_rent"@ {
            Some(FactType::CollectedRent)
        } else if s == "operating_expenses"@ {
            Some(FactType::OperatingExpenses)
        } else if s == "net_operating_income"@ {
            Some(FactType::NetOperatingIncome)
        } else if s == "debt_service"@ {
            Some(FactType::DebtService)
        } else if s == "property_value"@ {
            Some(FactType::PropertyValue)
        } else if s == "mortgage_balance"@ {
            Some(FactType::MortgageBalance)
        } else if s == "interest_rate"@ {
            Some(FactType::InterestRate)
        } else if s == "other"@ {
            Some(FactType::Other)
        } else {
            None
        }
    }

    /// The name under which this kind of fact is stored.
    pub fn as_str(&self) -> (s: &'static str)
        ensures
            s@ == self.name(),
    {
        match self {
            FactType::UnitCount => "unit_count",
            FactType::OccupancyRate => "occupancy_rate",
            FactType::GrossScheduledRent => "gross_scheduled_rent",
            FactType::CollectedRent => "collected_rent",
            FactType::OperatingExpenses => "operating_expenses",
            FactType::NetOperatingIncome => "net_operating_income",
            FactType::DebtService => "debt_service",
            FactType::PropertyValue => "property_value",
            FactType::MortgageBalance => "mortgage_balance",
            FactType::InterestRate => "interest_rate",
            FactType::Other => "other",
        }
    }

    /// The kind of fact that `s` names; `None` for any other text.
    pub fn from_str(s: &str) -> (r: Option<Self>)
        ensures
            r == Self::named(s@),
    {
        if s.eq("unit_count") {
            Some(FactType::UnitCount)
        } else if s.eq("occupancy_rate") {
            Some(FactType::OccupancyRate)
        } else if s.eq("gross_scheduled_rent") {
            Some(FactType::GrossScheduledRent)
        } else if s.eq("collected_rent") {
            Some(FactType::CollectedRent)
        } else if s.eq("operating_expenses") {
            Some(FactType::OperatingExpenses)
        } else if s.eq("net_operating_income") {
            Some(FactType::NetOperatingIncome)
        } else if s.eq("debt_service") {
            Some(FactType::DebtService)
        } else if s.eq("property_value") {
            Some(FactType::PropertyValue)
        } else if s.eq("mortgage_balance") {
            Some(FactType::MortgageBalance)
        } else if s.eq("interest_rate") {
            Some(FactType::InterestRate)
        } else if s.eq("other") {
            Some(FactType::Other)
        } else {
            None
        }
    }
}

/// Names and kinds of fact correspond one to one: a kind is read back from its
/// name, and a text that names a kind is the name of that kind.
pub proof fn law_fact_type_names(t: FactType, s: Seq<char>)
    ensures
        FactType::named(t.name()) == Some(t),
        FactType::named(s) == Some(t) ==> s == t.name(),
{
    reveal_strlit("unit_count");
    reveal_strlit("occupancy_rate");
    reveal_strlit("gross_scheduled_rent");
    reveal_strlit("collected_rent");
    reveal_strlit("operating_expenses");
    reveal_strlit("net_operating_income");
    reveal_strlit("debt_service");
    reveal_strlit("property_value");
    reveal_strlit("mortgage_balance");
    reveal_strlit("interest_rate");
    reveal_strlit("other");
    assert("unit_count"@.len() == 10);
    assert("occupancy_rate"@.len() == 14);
    assert("gross_scheduled_rent"@.len() == 20);
    assert("collected_rent"@.len() == 14);
    assert("operating_expenses"@.len() == 18);
    assert("net_operating_income"@.len() == 20);
    assert("debt_service"@.len() == 12);
    assert("property_value"@.len() == 14);
    assert("mortgage_balance"@.len() == 16);
    assert("interest_rate"@.len() == 13);
    assert("other"@.len() == 5);
    assert("occupancy_rate"@[0] == 'o');
    assert("collected_rent"@[0] == 'c');
    assert("property_value"@[0] == 'p');
    assert("gross_scheduled_rent"@[0] == 'g');
    assert("net_operating_income"@[0] == 'n');
}

/// Where a fact stands in its review.
#[derive(Debug, Clone, Copy, PartialEq, Eq, Structural)]
pub enum FactStatus {
    PendingApproval,
    Approved,
    Rejected,
}

impl FactStatus {
    /// The name under which a status is stored.
    pub open spec fn name(self) -> Seq<char> {
        match self {
            FactStatus::PendingApproval => "pending_approval"@,
            FactStatus::Approved => "approved"@,
            FactStatus::Rejected => "rejected"@,
        }
    }

    /// The status that a name stands for, if any.
    pub open spec fn named(s: Seq<char>) -> Option<FactStatus> {
        if s == "pending_approval"@ {
            Some(FactStatus::PendingApproval)
        } else if s == "approved"@ {
            Some(FactStatus::Approved)
        } else if s == "rejected"@ {
            Some(FactStatus::Rejected)
        } else {
            None
        }
    }

    /// The name under which this status is stored.
    pub fn as_str(&self) -> (s: &'static str)
        ensures
            s@ == self.name(),
    {
        match self {
            FactStatus::PendingApproval => "pending_approval",
            FactStatus::Approved => "approved",
            FactStatus::Rejected => "rejected",
        }
    }

    /// The status that `s` names; `None` for any other text.
    pub fn from_str(s: &str) -> (r: Option<Self>)
        ensures
            r == Self::named(s@),
    {
        if s.eq("pending_approval") {
            Some(FactStatus::PendingApproval)
        } else if s.eq("approved") {
            Some(FactStatus::Approved)
        } else if s.eq("rejected") {
            Some(FactStatus::Rejected)
        } else {
            None
        }
    }
}

/// Names and statuses of a fact correspond one to one.
pub proof fn law_fact_status_names(t: FactStatus, s: Seq<char>)
    ensures
        FactStatus::named(t.name()) == Some(t),
        FactStatus::named(s) == Some(t) ==> s == t.name(),
{
    reveal_strlit("pending_approval");
    reveal_strlit("approved");
    reveal_strlit("rejected");
    assert("pending_approval"@.len() == 16);
    assert("approved"@.len() == 8);
    assert("rejected"@.len() == 8);
    assert("approved"@[0] == 'a');
    assert("rejected"@[0] == 'r');
}

/// A fact as it is stored. Times are microseconds since the Unix epoch.
#[derive(Debug, Clone)]
pub struct Fact {
    pub fact_id: String,
    pub document_id: String,
    pub deal_id: String,
    pub fact_type: String,
    pub label: String,
    pub value: String,
    pub unit: Option<String>,
    pub source_citation: Option<SourceCitation>,
    pub status: String,
    pub confidence_score: Option<Decimal>,
    pub approved_at: Option<i64>,
    pub approved_by: Option<String>,
    pub locked: bool,
    pub created_at: i64,
}

/// A fact about to be stored.
#[derive(Debug, Clone)]
pub struct NewFact {
    pub fact_id: String,
    pub document_id: String,
    pub deal_id: String,
    pub fact_type: String,
    pub label: String,
    pub value: String,
    pub unit: Option<String>,
    pub source_citation: Option<SourceCitation>,
    pub status: String,
    pub confidence_score: Option<Decimal>,
}

/// A change to a stored fact: each field that is there replaces the fact's, each
/// field that is not leaves it as it is.
#[derive(Debug, Clone)]
pub struct UpdateFact {
    pub value: Option<String>,
    pub unit: Option<String>,
    pub status: Option<String>,
    pub approved_at: Option<i64>,
    pub approved_by: Option<String>,
    pub locked: Option<bool>,
}

/// Why a change to a fact was refused.
#[derive(Debug, Clone, Copy, PartialEq, Eq, Structural)]
pub enum FactError {
    /// The fact is locked: its value and unit are fixed.
    Locked,
}

impl FactError {
    /// The text of the refusal.
    pub fn to_text(&self) -> (s: String)
        ensures
            s@ == "Cannot update locked fact"@,
    {
        owned("Cannot update locked fact")
    }
}

impl Fact {
    /// The change that an edit of value and unit makes. A locked fact refuses
    /// it; any other fact accepts it, and the change touches nothing but the
    /// value and, where one is given, the unit.
    pub fn edit(&self, value: String, unit: Option<String>) -> (r: Result<UpdateFact, FactError>)
        ensures
            self.locked <==> r is Err,
            r matches Ok(u) ==> {
                &&& u.value == Some(value)
                &&& u.unit == unit
                &&& u.status is None
                &&& u.approved_at is None
                &&& u.approved_by is None
                &&& u.locked is None
            },
    {
        if self.locked {
            Err(FactError::Locked)
        } else {
            Ok(
                UpdateFact {
                    value: Some(value),
                    unit,
                    status: None,
                    approved_at: None,
                    approved_by: None,
                    locked: None,
                },
            )
        }
    }
}

impl UpdateFact {
    /// The change that approves a fact and locks it.
    pub fn approval(approved_by: String, approved_at: i64) -> (u: UpdateFact)
        ensures
            u.value is None,
            u.unit is None,
            text_view(u.status) == Some("approved"@),
            u.approved_at == Some(approved_at),
            u.approved_by == Some(approved_by),
            u.locked == Some(true),
    {
        UpdateFact {
            value: None,
            unit: None,
            status: Some(owned("approved")),
            approved_at: Some(approved_at),
            approved_by: Some(approved_by),
            locked: Some(true),
        }
    }

    /// The change that sends a fact back to review and unlocks it.
    pub fn reset() -> (u: UpdateFact)
        ensures
            u.value is None,
            u.unit is None,
            text_view(u.status) == Some("pending_approval"@),
            u.approved_at is None,
            u.approved_by is None,
            u.locked == Some(false),
    {
        UpdateFact {
            value: None,
            unit: None,
            status: Some(owned("pending_approval")),
            approved_at: None,
            approved_by: None,
            locked: Some(false),
        }
    }

    /// The change leaves value and unit alone.
    pub open spec fn keeps_content(self) -> bool {
        self.value is None && self.unit is None
    }
}

impl UpdateFact {
    /// The fact as it is once the change is made.
    pub open spec fn applied_to(self, fact: Fact) -> Fact {
        Fact {
            value: match self.value {
                Some(v) => v,
                None => fact.value,
            },
            unit: match self.unit {
                Some(u) => Some(u),
                None => fact.unit,
            },
            status: match self.status {
                Some(s) => s,
                None => fact.status,
            },
            approved_at: match self.approved_at {
                Some(t) => Some(t),
                None => fact.approved_at,
            },
            approved_by: match self.approved_by {
                Some(b) => Some(b),
                None => fact.approved_by,
            },
            locked: match self.locked {
                Some(l) => l,
                None => fact.locked,
            },
            ..fact
        }
    }
}

impl Fact {
    /// Makes a change to the fact.
    pub fn apply(self, update: UpdateFact) -> (changed: Fact)
        ensures
            changed == update.applied_to(self),
    {
        Fact {
            fact_id: self.fact_id,
            document_id: self.document_id,
            deal_id: self.deal_id,
            fact_type: self.fact_type,
            label: self.label,
            value: match update.value {
                Some(v) => v,
                None => self.value,
            },
            unit: match update.unit {
                Some(u) => Some(u),
                None => self.unit,
            },
            source_citation: self.source_citation,
            status: match update.status {
                Some(s) => s,
                None => self.status,
            },
            confidence_score: self.confidence_score,
            approved_at: match update.approved_at {
                Some(t) => Some(t),
                None => self.approved_at,
            },
            approved_by: match update.approved_by {
                Some(b) => Some(b),
                None => self.approved_by,
            },
            locked: match update.locked {
                Some(l) => l,
                None => self.locked,
            },
            created_at: self.created_at,
        }
    }
}

/// A change that keeps the content leaves value and unit of a fact as they
/// were; approval and reset are such changes, and an edit, the one change that
/// is not, is refused by a locked fact.
pub proof fn law_content_survives(fact: Fact, update: UpdateFact)
    requires
        update.keeps_content(),
    ensures
        update.applied_to(fact).value == fact.value,
        update.applied_to(fact).unit == fact.unit,
{
}

} // verus!

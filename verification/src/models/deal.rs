//! Deals: the unit of work that documents and facts belong to.

use vstd::prelude::*;

verus! {

/// A deal as it is stored. Times are microseconds since the Unix epoch; the
/// metadata is JSON, carried through as it is.
#[derive(Debug, Clone)]
pub struct Deal {
    pub deal_id: String,
    pub user_id: String,
    pub deal_name: String,
    pub status: String,
    pub created_at: i64,
    pub updated_at: i64,
    pub metadata: serde_json::Value,
}

/// A deal about to be stored.
#[derive(Debug, Clone)]
pub struct NewDeal {
    pub deal_id: String,
    pub user_id: String,
    pub deal_name: String,
    pub status: String,
    pub metadata: Option<serde_json::Value>,
}

/// A change to a stored deal; a field that is absent is left as it is.
#[derive(Debug, Clone)]
pub struct UpdateDeal {
    pub deal_name: Option<String>,
    pub status: Option<String>,
    pub metadata: Option<serde_json::Value>,
}

/// What is asked for when a deal is created.
#[derive(Debug)]
pub struct CreateDealRequest {
    pub deal_name: String,
}

/// The stages of a deal.
#[derive(Debug, Clone, Copy, PartialEq, Eq, Structural)]
pub enum DealStatus {
    Draft,
    ProcessingDocuments,
    FactReview,
    ReadyForUnderwriting,
    Complete,
}

impl DealStatus {
    /// The name under which a stage is stored.
    pub open spec fn name(self) -> Seq<char> {
        match self {
            DealStatus::Draft => "draft"@,
            DealStatus::ProcessingDocuments => "processing_documents"@,
            DealStatus::FactReview => "fact_review"@,
            DealStatus::ReadyForUnderwriting => "ready_for_underwriting"@,
            DealStatus::Complete => "complete"@,
        }
    }

    /// The stage that a name stands for, if any.
    pub open spec fn named(s: Seq<char>) -> Option<DealStatus> {
        if s == "draft"@ {
            Some(DealStatus::Draft)
        } else if s == "processing_documents"@ {
            Some(DealStatus::ProcessingDocuments)
        } else if s == "fact_review"@ {
            Some(DealStatus::FactReview)
        } else if s == "ready_for_underwriting"@ {
            Some(DealStatus::ReadyForUnderwriting)
        } else if s == "complete"@ {
            Some(DealStatus::Complete)
        } else {
            None
        }
    }

    /// The name under which this stage is stored.
    pub fn as_str(&self) -> (s: &'static str)
        ensures
            s@ == self.name(),
    {
        match self {
            DealStatus::Draft => "draft",
            DealStatus::ProcessingDocuments => "processing_documents",
            DealStatus::FactReview => "fact_review",
            DealStatus::ReadyForUnderwriting => "ready_for_underwriting",
            DealStatus::Complete => "complete",
        }
    }

    /// The stage that `s` names; `None` for any other text.
    pub fn from_str(s: &str) -> (r: Option<Self>)
        ensures
            r == Self::named(s@),
    {
        if s.eq("draft") {
            Some(DealStatus::Draft)
        } else if s.eq("processing_documents") {
            Some(DealStatus::ProcessingDocuments)
        } else if s.eq("fact_review") {
            Some(DealStatus::FactReview)
        } else if s.eq("ready_for_underwriting") {
            Some(DealStatus::ReadyForUnderwriting)
        } else if s.eq("complete") {
            Some(DealStatus::Complete)
        } else {
            None
        }
    }
}

/// Names and stages of a deal correspond one to one.
pub proof fn law_deal_status_names(t: DealStatus, s: Seq<char>)
    ensures
        DealStatus::named(t.name()) == Some(t),
        DealStatus::named(s) == Some(t) ==> s == t.name(),
{
    reveal_strlit("draft");
    reveal_strlit("processing_documents");
    reveal_strlit("fact_review");
    reveal_strlit("ready_for_underwriting");
    reveal_strlit("complete");
    assert("draft"@.len() == 5);
    assert("processing_documents"@.len() == 20);
    assert("fact_review"@.len() == 11);
    assert("ready_for_underwriting"@.len() == 22);
    assert("complete"@.len() == 8);
}

/// A deal as it is shown: the stored record, and the numbers of its documents
/// and facts where those were counted.
#[derive(Debug)]
pub struct DealResponse {
    pub deal_id: String,
    pub user_id: String,
    pub deal_name: String,
    pub status: String,
    pub created_at: i64,
    pub updated_at: i64,
    pub metadata: serde_json::Value,
    pub document_count: Option<i64>,
    pub fact_count: Option<i64>,
}

impl DealResponse {
    /// What is shown of a stored deal: its fields as they are, and no counts.
    pub open spec fn of(deal: Deal) -> DealResponse {
        DealResponse {
            deal_id: deal.deal_id,
            user_id: deal.user_id,
            deal_name: deal.deal_name,
            status: deal.status,
            created_at: deal.created_at,
            updated_at: deal.updated_at,
            metadata: deal.metadata,
            document_count: None,
            fact_count: None,
        }
    }
}

impl From<Deal> for DealResponse {
    fn from(deal: Deal) -> (r: Self) {
        DealResponse {
            deal_id: deal.deal_id,
            user_id: deal.user_id,
            deal_name: deal.deal_name,
            status: deal.status,
            created_at: deal.created_at,
            updated_at: deal.updated_at,
            metadata: deal.metadata,
            document_count: None,
            fact_count: None,
        }
    }
}

impl vstd::std_specs::convert::FromSpecImpl<Deal> for DealResponse {
    open spec fn obeys_from_spec() -> bool {
        true
    }

    open spec fn from_spec(deal: Deal) -> Self {
        DealResponse::of(deal)
    }
}

} // verus!

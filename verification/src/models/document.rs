//! Documents: the files of a deal, with their type and the state of their
//! processing.

use vstd::prelude::*;

verus! {

/// A document as it is stored. Times are microseconds since the Unix epoch; the
/// OCR output, where it is kept, is its JSON text.
#[derive(Debug, Clone)]
pub struct Document {
    pub document_id: String,
    pub deal_id: String,
    pub file_name: String,
    pub document_type: String,
    pub status: String,
    pub storage_location: Option<String>,
    pub page_count: Option<i32>,
    pub ocr_output: Option<String>,
    pub created_at: i64,
}

/// A document about to be stored.
#[derive(Debug, Clone)]
pub struct NewDocument {
    pub document_id: String,
    pub deal_id: String,
    pub file_name: String,
    pub document_type: String,
    pub status: String,
    pub storage_location: Option<String>,
    pub page_count: Option<i32>,
    pub ocr_output: Option<String>,
}

/// A change to a stored document; a field that is absent is left as it is.
#[derive(Debug, Clone)]
pub struct UpdateDocument {
    pub status: Option<String>,
    pub storage_location: Option<String>,
    pub page_count: Option<i32>,
    pub ocr_output: Option<String>,
}

/// The types of document.
#[derive(Debug, Clone, Copy, PartialEq, Eq, Structural)]
pub enum DocumentType {
    RentRoll,
    ProfitAndLoss,
    MortgageStatement,
    TaxDocument,
    BankStatement,
    PropertyDeed,
    InsurancePolicy,
    Other,
}

impl DocumentType {
    /// The name under which a type is stored.
    pub open spec fn name(self) -> Seq<char> {
        match self {
            DocumentType::RentRoll => "rent_roll"@,
            DocumentType::ProfitAndLoss => "profit_and_loss"@,
            DocumentType::MortgageStatement => "mortgage_statement"@,
            DocumentType::TaxDocument => "tax_document"@,
            DocumentType::BankStatement => "bank_statement"@,
            DocumentType::PropertyDeed => "property_deed"@,
            DocumentType::InsurancePolicy => "insurance_policy"@,
            DocumentType::Other => "other"@,
        }
    }

    /// The type that a name stands for, if any.
    pub open spec fn named(s: Seq<char>) -> Option<DocumentType> {
        if s == "rent_roll"@ {
            Some(DocumentType::RentRoll)
        } else if s == "profit_and_loss"@ {
            Some(DocumentType::ProfitAndLoss)
        } else if s == "mortgage_statement"@ {
            Some(DocumentType::MortgageStatement)
        } else if s == "tax_document"@ {
            Some(DocumentType::TaxDocument)
        } else if s == "bank_statement"@ {
            Some(DocumentType::BankStatement)
        } else if s == "property_deed"@ {
            Some(DocumentType::PropertyDeed)
        } else if s == "insurance_policy"@ {
            Some(DocumentType::InsurancePolicy)
        } else if s == "other"@ {
            Some(DocumentType::Other)
        } else {
            None
        }
    }

    /// The name under which this type is stored.
    pub fn as_str(&self) -> (s: &'static str)
        ensures
            s@ == self.name(),
    {
        match self {
            DocumentType::RentRoll => "rent_roll",
            DocumentType::ProfitAndLoss => "profit_and_loss",
            DocumentType::MortgageStatement => "mortgage_statement",
            DocumentType::TaxDocument => "tax_document",
            DocumentType::BankStatement => "bank_statement",
            DocumentType::PropertyDeed => "property_deed",
            DocumentType::InsurancePolicy => "insurance_policy",
            DocumentType::Other => "other",
        }
    }

    /// The type that `s` names; `None` for any other text.
    pub fn from_str(s: &str) -> (r: Option<Self>)
        ensures
            r == Self::named(s@),
    {
        if s.eq("rent_roll") {
            Some(DocumentType::RentRoll)
        } else if s.eq("profit_and_loss") {
            Some(DocumentType::ProfitAndLoss)
        } else if s.eq("mortgage_statement") {
            Some(DocumentType::MortgageStatement)
        } else if s.eq("tax_document") {
            Some(DocumentType::TaxDocument)
        } else if s.eq("bank_statement") {
            Some(DocumentType::BankStatement)
        } else if s.eq("property_deed") {
            Some(DocumentType::PropertyDeed)
        } else if s.eq("insurance_policy") {
            Some(DocumentType::InsurancePolicy)
        } else if s.eq("other") {
            Some(DocumentType::Other)
        } else {
            None
        }
    }
}

/// Names and types of document correspond one to one.
pub proof fn law_document_type_names(t: DocumentType, s: Seq<char>)
    ensures
        DocumentType::named(t.name()) == Some(t),
        DocumentType::named(s) == Some(t) ==> s == t.name(),
{
    reveal_strlit("rent_roll");
    reveal_strlit("profit_and_loss");
    reveal_strlit("mortgage_statement");
    reveal_strlit("tax_document");
    reveal_strlit("bank_statement");
    reveal_strlit("property_deed");
    reveal_strlit("insurance_policy");
    reveal_strlit("other");
    assert("rent_roll"@.len() == 9);
    assert("profit_and_loss"@.len() == 15);
    assert("mortgage_statement"@.len() == 18);
    assert("tax_document"@.len() == 12);
    assert("bank_statement"@.len() == 14);
    assert("property_deed"@.len() == 13);
    assert("insurance_policy"@.len() == 16);
    assert("other"@.len() == 5);
}

/// The states of a document's processing.
#[derive(Debug, Clone, Copy, PartialEq, Eq, Structural)]
pub enum DocumentStatus {
    Pending,
    Processing,
    Completed,
    Failed,
}

impl DocumentStatus {
    /// The name under which a state is stored.
    pub open spec fn name(self) -> Seq<char> {
        match self {
            DocumentStatus::Pending => "pending"@,
            DocumentStatus::Processing => "processing"@,
            DocumentStatus::Completed => "completed"@,
            DocumentStatus::Failed => "failed"@,
        }
    }

    /// The state that a name stands for, if any.
    pub open spec fn named(s: Seq<char>) -> Option<DocumentStatus> {
        if s == "pending"@ {
            Some(DocumentStatus::Pending)
        } else if s == "processing"@ {
            Some(DocumentStatus::Processing)
        } else if s == "completed"@ {
            Some(DocumentStatus::Completed)
        } else if s == "failed"@ {
            Some(DocumentStatus::Failed)
        } else {
            None
        }
    }

    /// The name under which this state is stored.
    pub fn as_str(&self) -> (s: &'static str)
        ensures
            s@ == self.name(),
    {
        match self {
            DocumentStatus::Pending => "pending",
            DocumentStatus::Processing => "processing",
            DocumentStatus::Completed => "completed",
            DocumentStatus::Failed => "failed",
        }
    }

    /// The state that `s` names; `None` for any other text.
    pub fn from_str(s: &str) -> (r: Option<Self>)
        ensures
            r == Self::named(s@),
    {
        if s.eq("pending") {
            Some(DocumentStatus::Pending)
        } else if s.eq("processing") {
            Some(DocumentStatus::Processing)
        } else if s.eq("completed") {
            Some(DocumentStatus::Completed)
        } else if s.eq("failed") {
            Some(DocumentStatus::Failed)
        } else {
            None
        }
    }
}

/// Names and states of a document correspond one to one.
pub proof fn law_document_status_names(t: DocumentStatus, s: Seq<char>)
    ensures
        DocumentStatus::named(t.name()) == Some(t),
        DocumentStatus::named(s) == Some(t) ==> s == t.name(),
{
    reveal_strlit("pending");
    reveal_strlit("processing");
    reveal_strlit("completed");
    reveal_strlit("failed");
    assert("pending"@.len() == 7);
    assert("processing"@.len() == 10);
    assert("completed"@.len() == 9);
    assert("failed"@.len() == 6);
}

/// A document as it is shown: the stored record without its OCR output, and with
/// the number of its facts where that was counted.
#[derive(Debug)]
pub struct DocumentResponse {
    pub document_id: String,
    pub deal_id: String,
    pub file_name: String,
    pub document_type: String,
    pub status: String,
    pub storage_location: Option<String>,
    pub page_count: Option<i32>,
    pub created_at: i64,
    pub fact_count: Option<i64>,
}

impl DocumentResponse {
    /// What is shown of a stored document: its fields as they are, and no count
    /// of facts.
    pub open spec fn of(doc: Document) -> DocumentResponse {
        DocumentResponse {
            document_id: doc.document_id,
            deal_id: doc.deal_id,
            file_name: doc.file_name,
            document_type: doc.document_type,
            status: doc.status,
            storage_location: doc.storage_location,
            page_count: doc.page_count,
            created_at: doc.created_at,
            fact_count: None,
        }
    }
}

impl From<Document> for DocumentResponse {
    fn from(doc: Document) -> (r: Self) {
        DocumentResponse {
            document_id: doc.document_id,
            deal_id: doc.deal_id,
            file_name: doc.file_name,
            document_type: doc.document_type,
            status: doc.status,
            storage_location: doc.storage_location,
            page_count: doc.page_count,
            created_at: doc.created_at,
            fact_count: None,
        }
    }
}

impl vstd::std_specs::convert::FromSpecImpl<Document> for DocumentResponse {
    open spec fn obeys_from_spec() -> bool {
        true
    }

    open spec fn from_spec(doc: Document) -> Self {
        DocumentResponse::of(doc)
    }
}

} // verus!

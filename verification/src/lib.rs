//! Fact extraction, underwriting metrics and risk analysis for real-estate deals.
//!
//! The library turns the OCR output of deal documents into facts that can be
//! cited, turns approved facts into underwriting figures with a record of how
//! each figure was derived, puts those figures under stress, and lists what a
//! deal is missing or at risk of. Every function is verified against a contract
//! that says what it returns.
//!
//! # Parts
//!
//! - [`pipeline::fact_extraction`]: the type of a document by rules of thumb, and
//!   the extraction of facts by pattern, earliest page first.
//! - [`agents::document_parser`]: the citation of candidate facts, and the
//!   decisions around the models that classify and extract.
//! - [`services::underwriting`]: NOI, DSCR, cash flow after debt, cap rate, LTV
//!   and GRM with audit trail and warnings; the stress test.
//! - [`services::deal_agent`]: the rules that turn facts and figures into
//!   recommendations.
//! - [`routes::deal`]: from the approved facts of a deal to the input of an
//!   underwriting.
//! - [`routes::conversation`]: what the handlers of a conversation are asked.
//! - [`models`]: deals, documents, facts and OCR output.
//! - [`decimal`] and [`text`]: the numbers and the texts that all of the above
//!   are stated in.
//!
//! # Numbers
//!
//! Amounts, rates and ratios are [`decimal::Decimal`]s: whole numbers of
//! millionths. Sums and differences are exact. A quotient is the exact quotient
//! rounded down to a millionth. Where a number is shown with two decimals it is
//! rounded to the nearest hundredth, to the even one from the middle. A number
//! that is read from a text with more than six decimals is rounded to the
//! nearest millionth.
//!
//! # What is taken on trust
//!
//! Lower-casing, pushing a character and comparing two string slices are the
//! standard library's, regular expressions are the `regex` crate's, and
//! identifiers are the `uuid` crate's. Each is reached through one item whose
//! contract is stated and not proved; see [`text`], [`pipeline::fact_extraction`]
//! and [`agents::common`].

pub mod agents;
pub mod decimal;
pub mod models;
pub mod pipeline;
pub mod routes;
pub mod services;
pub mod text;

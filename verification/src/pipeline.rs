//! From the OCR output of a document to candidate facts.

pub mod fact_extraction;

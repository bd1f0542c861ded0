//! The records of the domain: deals, their documents, the facts drawn from them,
//! and the OCR output that the facts are drawn from.

pub mod deal;
pub mod document;
pub mod fact;
pub mod output;

//! What the agents around the library share, and the decisions that each of
//! them makes between its calls to the outside.

pub mod chat_orchestrator;
pub mod common;
pub mod document_parser;

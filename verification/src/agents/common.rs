//! The context an agent runs in, the result it reports and the errors it can
//! end with.

use vstd::prelude::*;
use crate::text::{concat2, concat3, owned};

verus! {

/// A JSON value, carried through as it is.
#[verifier::external_type_specification]
#[verifier::external_body]
pub struct ExJsonValue(serde_json::Value);

/// `Value::clone`, so that records which carry a JSON value can be copied.
/// Nothing is claimed of the copy.
pub assume_specification[ <serde_json::Value as Clone>::clone ](
    v: &serde_json::Value,
) -> serde_json::Value;

/// A fresh random identifier in its hyphenated form, from `Uuid::new_v4` and the
/// identifier's `to_string`. Nothing is claimed of it: each call gives another.
#[verifier::external_body]
pub(crate) fn new_id() -> (id: String) {
    uuid::Uuid::new_v4().to_string()
}

/// The context handed to every agent.
#[derive(Debug, Clone)]
pub struct AgentContext {
    pub user_id: String,
    pub entity_id: Option<String>,
    pub entity_type: Option<String>,
    pub metadata: Option<serde_json::Value>,
}

/// What an agent reports when it is done.
#[derive(Debug, Clone)]
pub struct AgentResult {
    pub success: bool,
    pub output: Option<serde_json::Value>,
    pub error: Option<String>,
    pub execution_id: String,
    pub tokens_used: Option<i32>,
    pub execution_time_ms: Option<i32>,
}

impl AgentResult {
    /// The report of a run that succeeded, under a fresh execution identifier.
    pub fn success(
        output: serde_json::Value,
        tokens_used: Option<i32>,
        execution_time_ms: i32,
    ) -> (r: Self)
        ensures
            r.success,
            r.output == Some(output),
            r.error is None,
            r.tokens_used == tokens_used,
            r.execution_time_ms == Some(execution_time_ms),
    {
        AgentResult {
            success: true,
            output: Some(output),
            error: None,
            execution_id: new_id(),
            tokens_used,
            execution_time_ms: Some(execution_time_ms),
        }
    }

    /// The report of a run that failed, under a fresh execution identifier.
    pub fn failure(error: String) -> (r: Self)
        ensures
            !r.success,
            r.output is None,
            r.error == Some(error),
            r.tokens_used is None,
            r.execution_time_ms is None,
    {
        AgentResult {
            success: false,
            output: None,
            error: Some(error),
            execution_id: new_id(),
            tokens_used: None,
            execution_time_ms: None,
        }
    }
}

/// A run that has ended, well or badly, has a time of completion; a run in any
/// other state has none yet.
pub fn has_ended(status: &str) -> (r: bool)
    ensures
        r == (status@ == "completed"@ || status@ == "failed"@),
{
    status.eq("completed") || status.eq("failed")
}

/// The ways in which an agent can fail, each with its message.
#[derive(Debug)]
pub enum AgentError {
    InputError(String),
    ProcessingError(String),
    ExternalServiceError(String),
    DatabaseError(String),
    ConfigurationError(String),
}

/// The text of an error: its kind, a colon and its message.
pub open spec fn error_text(error: AgentError) -> Seq<char> {
    match error {
        AgentError::InputError(msg) => "Input Error: "@ + msg@,
        AgentError::ProcessingError(msg) => "Processing Error: "@ + msg@,
        AgentError::ExternalServiceError(msg) => "External Service Error: "@ + msg@,
        AgentError::DatabaseError(msg) => "Database Error: "@ + msg@,
        AgentError::ConfigurationError(msg) => "Configuration Error: "@ + msg@,
    }
}

/// What a user is told of an error. Faults of the input, of the processing and
/// of an outside service are passed on with their message; those of the
/// database and of the configuration are not spelled out.
pub open spec fn user_message(error: AgentError) -> Seq<char> {
    match error {
        AgentError::InputError(msg) => "Invalid input: "@ + msg@,
        AgentError::ProcessingError(msg) => "Processing failed: "@ + msg@,
        AgentError::ExternalServiceError(msg) => "External service error: "@ + msg@
            + ". Please try again later."@,
        AgentError::DatabaseError(_) => "Database error occurred. Please try again."@,
        AgentError::ConfigurationError(_) => "System configuration error. Please contact support."@,
    }
}

impl AgentError {
    /// The text of the error.
    pub fn to_text(&self) -> (s: String)
        ensures
            s@ == error_text(*self),
    {
        match self {
            AgentError::InputError(msg) => concat2("Input Error: ", msg.as_str()),
            AgentError::ProcessingError(msg) => concat2("Processing Error: ", msg.as_str()),
            AgentError::ExternalServiceError(msg) => concat2(
                "External Service Error: ",
                msg.as_str(),
            ),
            AgentError::DatabaseError(msg) => concat2("Database Error: ", msg.as_str()),
            AgentError::ConfigurationError(msg) => concat2(
                "Configuration Error: ",
                msg.as_str(),
            ),
        }
    }
}

/// Turns an agent's error into the message shown to the user.
pub fn handle_agent_error(error: AgentError) -> (message: String)
    ensures
        message@ == user_message(error),
{
    match error {
        AgentError::InputError(msg) => concat2("Invalid input: ", msg.as_str()),
        AgentError::ProcessingError(msg) => concat2("Processing failed: ", msg.as_str()),
        AgentError::ExternalServiceError(msg) => concat3(
            "External service error: ",
            msg.as_str(),
            ". Please try again later.",
        ),
        AgentError::DatabaseError(_) => owned("Database error occurred. Please try again."),
        AgentError::ConfigurationError(_) => owned(
            "System configuration error. Please contact support.",
        ),
    }
}

} // verus!

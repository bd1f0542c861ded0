//! What the handlers of a conversation are asked, and the one decision they
//! make: under which session a visitor who has not signed in is answered.

use vstd::prelude::*;
use crate::agents::common::new_id;
use crate::text::owned;

verus! {

/// What is asked for when a conversation is opened.
#[derive(Debug, Clone)]
pub struct CreateConversationRequest {
    pub deal_id: Option<String>,
    pub title: Option<String>,
}

/// A message sent into a conversation.
#[derive(Debug, Clone)]
pub struct SendMessageRequest {
    pub content: String,
}

/// A message of a visitor who has not signed in.
#[derive(Debug, Clone)]
pub struct PublicMessageRequest {
    pub content: String,
    /// Tells the turns of one visitor apart where nobody has signed in.
    pub session_id: Option<String>,
}

impl PublicMessageRequest {
    /// The session that the message belongs to: the one it names, or a fresh
    /// one where it names none.
    pub fn session(&self) -> (id: String)
        ensures
            self.session_id matches Some(given) ==> id@ == given@,
    {
        match &self.session_id {
            Some(given) => owned(given.as_str()),
            None => new_id(),
        }
    }
}

} // verus!

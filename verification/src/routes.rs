//! What the request handlers decide between reading a request and answering it.

pub mod conversation;
pub mod deal;

//! What the library exchanges with the language models.

pub mod claude_client;
pub mod openai_client;
pub mod prompts;

//! Message types for conversation storage: the canonical message model,
//! under the name by which a conversation knows it.

pub use crate::llm::types::{ContentBlock, Message, MessageContent};

//! Conversations: ordered runs of messages.

pub mod message;

pub use message::{ContentBlock, Message, MessageContent};

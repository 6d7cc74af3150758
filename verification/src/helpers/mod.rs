//! Helpers around the conversation: paths, attachments and directory listings.

pub mod attachments;
pub mod listing;
pub mod path;

//! Sessions: conversations that are kept, each under an id and with its
//! metadata.

pub mod metadata;
pub mod storage;

pub use metadata::SessionMetadata;
pub use storage::{SessionEntry, SessionStorage};

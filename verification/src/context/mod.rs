//! Context for the model: the system prompt, hidden prompts, and context
//! that providers compute from the state of the project.

pub mod manager;
pub mod providers;

pub use manager::ContextManager;
pub use providers::{
    ContextProvider, FileStructureProvider, GitStatusProvider, StaticContextProvider,
};

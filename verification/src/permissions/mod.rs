//! Permission system for tool execution: the static rules and the resolver
//! that combines them with the verdicts of hooks.

pub mod manager;
pub mod resolver;

pub use resolver::{resolve, settle, Resolution};
pub use manager::{Permission, PermissionDecision, PermissionManager, PermissionRequest};

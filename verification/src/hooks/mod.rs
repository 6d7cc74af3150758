//! Hooks: interceptors that observe the events of a turn and may allow,
//! refuse or question a tool call.
//!
//! All hooks that match an event run to completion; none can keep a later one
//! from running. Their verdicts are then combined with the precedence
//! `Deny` > `Allow` > `Ask` > no opinion.

pub mod registry;
pub mod types;

pub use registry::{HookMatcher, HookRegistry};
pub use types::{combine, HookEvent, HookResult, PermissionVerdict};

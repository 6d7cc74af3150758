//! Core of a conversational coding agent: the canonical message model, the
//! hook and permission resolver, the provider adapter and the agent loop.

pub mod agent;
pub mod context;
pub mod conversation;
pub mod helpers;
pub mod hooks;
pub mod json;
pub mod llm;
pub mod pattern;
pub mod permissions;
pub mod session;
pub mod text;
pub mod tools;

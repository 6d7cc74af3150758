//! The agent: its loop and its default system prompt.

pub mod agent_loop;
pub mod input;
pub mod system_prompt;

pub use agent_loop::{ResponseWalk, ToolOutcome, TurnEnd, TurnLoop, TurnStep, WalkStep};
pub use input::{classify_input, permission_request, InputAction};
pub use system_prompt::{default_system_prompt, SYSTEM_PROMPT};

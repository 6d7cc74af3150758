//! The canonical message model and the provider adapter.

pub mod accumulate;
pub mod codec;
pub mod openai;
pub mod openai_stream;
pub mod openai_wire;
pub mod stream_laws;
pub mod types;

pub use openai::OpenAiProvider;
pub use types::{
    define_tool, ContentBlock, ContentBlockStart, ContentDelta, CustomTool, Message,
    MessageContent, MessageResponse, Role, StopReason, StreamEvent, SystemPrompt, ThinkingConfig,
    ToolChoice, ToolDefinition, ToolInputSchema, Usage,
};

//! The tools that the agent can use.

pub mod bash;
pub mod common;
pub mod file_edit;
pub mod registry;
pub mod todo;
pub mod tool;

pub use bash::BashTool;
pub use common::{ReadTool, WebFetchTool};
pub use file_edit::FileEditTool;
pub use registry::ToolRegistry;
pub use todo::{new_todo_list, TodoItem, TodoList, TodoTool};
pub use tool::{Tool, ToolInfo, ToolResult, ToolResultData};

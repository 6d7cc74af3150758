//! Tools that only read: files and the web.

pub mod read_tool;
pub mod web_fetch;

pub use read_tool::ReadTool;
pub use web_fetch::WebFetchTool;

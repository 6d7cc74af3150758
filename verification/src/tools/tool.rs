//! The contract of a tool: how it is declared, described and answered.

use vstd::prelude::*;
use crate::llm::types::ToolDefinition;

verus! {

/// Content type for tool results.
#[derive(Debug)]
pub enum ToolResultData {
    /// Text content.
    Text(String),
    /// Image content: raw bytes and media type.
    Image { data: Vec<u8>, media_type: String },
    /// Document content: raw bytes, media type and description.
    Document { data: Vec<u8>, media_type: String, description: String },
}

/// The model of a [`ToolResultData`].
pub ghost enum ToolResultDataView {
    Text(Seq<char>),
    Image { data: Seq<u8>, media_type: Seq<char> },
    Document { data: Seq<u8>, media_type: Seq<char>, description: Seq<char> },
}

impl DeepView for ToolResultData {
    type V = ToolResultDataView;

    open spec fn deep_view(&self) -> ToolResultDataView {
        match self {
            ToolResultData::Text(text) => ToolResultDataView::Text(text@),
            ToolResultData::Image { data, media_type } => ToolResultDataView::Image {
                data: data@,
                media_type: media_type@,
            },
            ToolResultData::Document { data, media_type, description } => ToolResultDataView::Document {
                data: data@,
                media_type: media_type@,
                description: description@,
            },
        }
    }
}

/// Result of executing a tool.
#[derive(Debug)]
pub struct ToolResult {
    /// The content of the tool result.
    pub content: ToolResultData,
    /// Whether the tool execution resulted in an error.
    pub is_error: bool,
}

/// The model of a [`ToolResult`].
pub ghost struct ToolResultView {
    pub content: ToolResultDataView,
    pub is_error: bool,
}

impl DeepView for ToolResult {
    type V = ToolResultView;

    open spec fn deep_view(&self) -> ToolResultView {
        ToolResultView { content: self.content.deep_view(), is_error: self.is_error }
    }
}

impl ToolResultView {
    /// The text that the model is shown for this result: the text itself, or
    /// the description of a document; an image has none.
    pub open spec fn shown(self) -> Option<Seq<char>> {
        match self.content {
            ToolResultDataView::Text(text) => Some(text),
            ToolResultDataView::Image { .. } => None,
            ToolResultDataView::Document { description, .. } => Some(description),
        }
    }
}

impl ToolResult {
    /// A successful tool result with text content.
    pub fn success(output: &str) -> (r: ToolResult)
        ensures
            r.deep_view() == (ToolResultView {
                content: ToolResultDataView::Text(output@),
                is_error: false,
            }),
    {
        ToolResult { content: ToolResultData::Text(output.to_string()), is_error: false }
    }

    /// An error tool result.
    pub fn error(message: &str) -> (r: ToolResult)
        ensures
            r.deep_view() == (ToolResultView {
                content: ToolResultDataView::Text(message@),
                is_error: true,
            }),
    {
        ToolResult { content: ToolResultData::Text(message.to_string()), is_error: true }
    }

    /// A successful image result.
    pub fn image(data: Vec<u8>, media_type: &str) -> (r: ToolResult)
        ensures
            r.deep_view() == (ToolResultView {
                content: ToolResultDataView::Image { data: data@, media_type: media_type@ },
                is_error: false,
            }),
    {
        ToolResult {
            content: ToolResultData::Image { data, media_type: media_type.to_string() },
            is_error: false,
        }
    }

    /// A successful document result.
    pub fn document(data: Vec<u8>, media_type: &str, description: &str) -> (r: ToolResult)
        ensures
            r.deep_view() == (ToolResultView {
                content: ToolResultDataView::Document {
                    data: data@,
                    media_type: media_type@,
                    description: description@,
                },
                is_error: false,
            }),
    {
        ToolResult {
            content: ToolResultData::Document {
                data,
                media_type: media_type.to_string(),
                description: description.to_string(),
            },
            is_error: false,
        }
    }

    /// The text that the model is shown for this result.
    pub fn shown(&self) -> (r: Option<String>)
        ensures
            r.deep_view() == self.deep_view().shown(),
    {
        match &self.content {
            ToolResultData::Text(text) => Some(text.clone()),
            ToolResultData::Image { .. } => None,
            ToolResultData::Document { description, .. } => Some(description.clone()),
        }
    }
}

/// Information about a tool invocation, for permission prompts.
#[derive(Debug)]
pub struct ToolInfo {
    /// Name of the tool.
    pub name: String,
    /// Human-readable description of what this invocation will do.
    pub action_description: String,
    /// Additional details about the action.
    pub details: Option<String>,
}

/// The model of a [`ToolInfo`].
pub ghost struct ToolInfoView {
    pub name: Seq<char>,
    pub action_description: Seq<char>,
    pub details: Option<Seq<char>>,
}

impl DeepView for ToolInfo {
    type V = ToolInfoView;

    open spec fn deep_view(&self) -> ToolInfoView {
        ToolInfoView {
            name: self.name@,
            action_description: self.action_description@,
            details: self.details.deep_view(),
        }
    }
}

/// What every tool tells about itself. Running a tool is no part of this: it
/// has effects outside the program.
pub trait Tool {
    /// The name of this tool.
    fn name(&self) -> String;

    /// A description of this tool.
    fn description(&self) -> String;

    /// The declaration of this tool for the model.
    fn definition(&self) -> ToolDefinition;

    /// What this invocation will do, for a permission prompt. It has no
    /// effects.
    fn get_info(&self, input: &serde_json::Value) -> ToolInfo;

    /// Whether this tool asks for permission before it runs; it does unless
    /// the tool says otherwise. This is what the tool's author declares, no
    /// security boundary: a tool that answers `false` runs without any check.
    fn requires_permission(&self) -> bool {
        true
    }
}

} // verus!

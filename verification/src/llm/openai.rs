//! The adapter for an OpenAI-style chat completions API.
//!
//! The canonical model goes out as a request in the vendor's shape, and the
//! vendor's reply comes back as canonical content. Both directions are plain
//! functions on values; sending and receiving is left to the caller.

use vstd::prelude::*;
use crate::json::{
    array_of_strings, json_of_object, json_of_string, json_of_strings, object, parse_or_empty,
    parsed_or_empty, string, text_or_empty, to_text,
};
use crate::llm::types::{
    clone_opt_string, lemma_deep_view_add, lemma_deep_view_push, ContentBlock, ContentBlockView, Message,
    MessageContent, MessageContentView, MessageResponse, MessageResponseView, MessageView, Role,
    StopReason, SystemPrompt, SystemPromptView, ThinkingConfig, ToolChoice, ToolChoiceView,
    ToolDefinition, ToolDefinitionView, ToolInputSchema, ToolInputSchemaView, Usage,
};
use crate::text::{begins_with, concat, concat3, join, joined, starts_with, str_eq};

verus! {

/// The vendor's API root.
pub const DEFAULT_API_BASE: &'static str = "https://api.openai.com/v1";

/// The token limit of a provider that was given none.
pub const DEFAULT_MAX_TOKENS: u32 = 4096;

/// The name and the arguments of one tool call, the arguments as JSON text.
#[derive(Debug)]
pub struct OpenAiFunctionCall {
    pub name: String,
    pub arguments: String,
}

/// One tool call of an assistant message.
#[derive(Debug)]
pub struct OpenAiToolCall {
    pub id: String,
    pub tool_type: String,
    pub function: OpenAiFunctionCall,
}

/// The model of an [`OpenAiToolCall`].
pub ghost struct ToolCallView {
    pub id: Seq<char>,
    pub tool_type: Seq<char>,
    pub name: Seq<char>,
    pub arguments: Seq<char>,
}

impl DeepView for OpenAiToolCall {
    type V = ToolCallView;

    open spec fn deep_view(&self) -> ToolCallView {
        ToolCallView {
            id: self.id@,
            tool_type: self.tool_type@,
            name: self.function.name@,
            arguments: self.function.arguments@,
        }
    }
}

/// The address of an image.
#[derive(Debug)]
pub struct OpenAiImageUrl {
    pub url: String,
}

/// One part of a message whose content comes in parts.
#[derive(Debug)]
pub enum OpenAiContentPart {
    Text { text: String },
    ImageUrl { image_url: OpenAiImageUrl },
}

/// The model of an [`OpenAiContentPart`].
pub ghost enum ContentPartView {
    Text { text: Seq<char> },
    ImageUrl { url: Seq<char> },
}

impl DeepView for OpenAiContentPart {
    type V = ContentPartView;

    open spec fn deep_view(&self) -> ContentPartView {
        match self {
            OpenAiContentPart::Text { text } => ContentPartView::Text { text: text@ },
            OpenAiContentPart::ImageUrl { image_url } => ContentPartView::ImageUrl {
                url: image_url.url@,
            },
        }
    }
}

/// The content of a vendor message: one text, or parts.
#[derive(Debug)]
pub enum OpenAiContent {
    Text(String),
    Parts(Vec<OpenAiContentPart>),
}

/// The model of an [`OpenAiContent`].
pub ghost enum WireContentView {
    Text(Seq<char>),
    Parts(Seq<ContentPartView>),
}

impl DeepView for OpenAiContent {
    type V = WireContentView;

    open spec fn deep_view(&self) -> WireContentView {
        match self {
            OpenAiContent::Text(text) => WireContentView::Text(text@),
            OpenAiContent::Parts(parts) => WireContentView::Parts(parts.deep_view()),
        }
    }
}

/// One message in the vendor's shape.
#[derive(Debug)]
pub struct OpenAiMessage {
    pub role: String,
    pub content: Option<OpenAiContent>,
    pub tool_calls: Option<Vec<OpenAiToolCall>>,
    pub tool_call_id: Option<String>,
}

/// The model of an [`OpenAiMessage`].
pub ghost struct OpenAiMessageView {
    pub role: Seq<char>,
    pub content: Option<WireContentView>,
    pub tool_calls: Option<Seq<ToolCallView>>,
    pub tool_call_id: Option<Seq<char>>,
}

impl DeepView for OpenAiMessage {
    type V = OpenAiMessageView;

    open spec fn deep_view(&self) -> OpenAiMessageView {
        OpenAiMessageView {
            role: self.role@,
            content: self.content.deep_view(),
            tool_calls: self.tool_calls.deep_view(),
            tool_call_id: self.tool_call_id.deep_view(),
        }
    }
}

impl OpenAiMessageView {
    /// A message of plain text.
    pub open spec fn plain(role: Seq<char>, text: Seq<char>) -> OpenAiMessageView {
        OpenAiMessageView {
            role,
            content: Some(WireContentView::Text(text)),
            tool_calls: None,
            tool_call_id: None,
        }
    }

    /// The answer to the tool call `tool_call_id`.
    pub open spec fn tool(tool_call_id: Seq<char>, text: Seq<char>) -> OpenAiMessageView {
        OpenAiMessageView {
            role: "tool"@,
            content: Some(WireContentView::Text(text)),
            tool_calls: None,
            tool_call_id: Some(tool_call_id),
        }
    }
}

impl OpenAiMessage {
    /// A message of plain text.
    pub fn plain(role: &str, text: String) -> (r: OpenAiMessage)
        ensures
            r.deep_view() == OpenAiMessageView::plain(role@, text@),
    {
        OpenAiMessage {
            role: role.to_string(),
            content: Some(OpenAiContent::Text(text)),
            tool_calls: None,
            tool_call_id: None,
        }
    }

    /// The answer to the tool call `tool_call_id`.
    pub fn tool(tool_call_id: String, text: String) -> (r: OpenAiMessage)
        ensures
            r.deep_view() == OpenAiMessageView::tool(tool_call_id@, text@),
    {
        OpenAiMessage {
            role: "tool".to_string(),
            content: Some(OpenAiContent::Text(text)),
            tool_calls: None,
            tool_call_id: Some(tool_call_id),
        }
    }
}

/// The declaration of a function that the model may call.
#[derive(Debug)]
pub struct OpenAiFunctionDefinition {
    pub name: String,
    pub description: Option<String>,
    pub parameters: Option<serde_json::Value>,
}

/// One tool of a request.
#[derive(Debug)]
pub struct OpenAiTool {
    pub tool_type: String,
    pub function: OpenAiFunctionDefinition,
}

/// The model of an [`OpenAiTool`].
pub ghost struct OpenAiToolView {
    pub tool_type: Seq<char>,
    pub name: Seq<char>,
    pub description: Option<Seq<char>>,
    pub parameters: Option<serde_json::Value>,
}

impl DeepView for OpenAiTool {
    type V = OpenAiToolView;

    open spec fn deep_view(&self) -> OpenAiToolView {
        OpenAiToolView {
            tool_type: self.tool_type@,
            name: self.function.name@,
            description: self.function.description.deep_view(),
            parameters: self.function.parameters,
        }
    }
}

/// The function that the model must call.
#[derive(Debug)]
pub struct OpenAiFunctionChoice {
    pub name: String,
}

/// How the model may choose among the tools, in the vendor's shape.
#[derive(Debug)]
pub enum OpenAiToolChoice {
    /// `auto`, `none` or `required`.
    Mode(String),
    /// One function by name.
    Function { choice_type: String, function: OpenAiFunctionChoice },
}

/// The model of an [`OpenAiToolChoice`].
pub ghost enum WireToolChoiceView {
    Mode(Seq<char>),
    Function { choice_type: Seq<char>, name: Seq<char> },
}

impl DeepView for OpenAiToolChoice {
    type V = WireToolChoiceView;

    open spec fn deep_view(&self) -> WireToolChoiceView {
        match self {
            OpenAiToolChoice::Mode(mode) => WireToolChoiceView::Mode(mode@),
            OpenAiToolChoice::Function { choice_type, function } => WireToolChoiceView::Function {
                choice_type: choice_type@,
                name: function.name@,
            },
        }
    }
}

/// Options of a streamed request.
#[derive(Clone, Copy, Debug, PartialEq, Eq, Structural)]
pub struct OpenAiStreamOptions {
    pub include_usage: bool,
}

/// A sampling temperature, in thousandths.
#[derive(Clone, Copy, Debug, PartialEq, Eq, Structural)]
pub struct Temperature {
    pub thousandths: u32,
}

/// One request in the vendor's shape.
#[derive(Debug)]
pub struct OpenAiRequest {
    pub model: String,
    pub messages: Vec<OpenAiMessage>,
    pub max_tokens: Option<u32>,
    pub max_completion_tokens: Option<u32>,
    pub temperature: Option<Temperature>,
    pub tools: Option<Vec<OpenAiTool>>,
    pub tool_choice: Option<OpenAiToolChoice>,
    pub stream: Option<bool>,
    pub stream_options: Option<OpenAiStreamOptions>,
}

/// The model of an [`OpenAiRequest`].
pub ghost struct OpenAiRequestView {
    pub model: Seq<char>,
    pub messages: Seq<OpenAiMessageView>,
    pub max_tokens: Option<u32>,
    pub max_completion_tokens: Option<u32>,
    pub temperature: Option<Temperature>,
    pub tools: Option<Seq<OpenAiToolView>>,
    pub tool_choice: Option<WireToolChoiceView>,
    pub stream: Option<bool>,
    pub stream_options: Option<OpenAiStreamOptions>,
}

impl DeepView for OpenAiRequest {
    type V = OpenAiRequestView;

    open spec fn deep_view(&self) -> OpenAiRequestView {
        OpenAiRequestView {
            model: self.model@,
            messages: self.messages.deep_view(),
            max_tokens: self.max_tokens,
            max_completion_tokens: self.max_completion_tokens,
            temperature: self.temperature,
            tools: self.tools.deep_view(),
            tool_choice: self.tool_choice.deep_view(),
            stream: self.stream,
            stream_options: self.stream_options,
        }
    }
}

/// Token counts as the vendor reports them.
#[derive(Clone, Copy, Debug, PartialEq, Eq, Structural)]
pub struct OpenAiUsage {
    pub prompt_tokens: u32,
    pub completion_tokens: u32,
    pub total_tokens: u32,
}

/// One alternative of a reply.
#[derive(Debug)]
pub struct OpenAiChoice {
    pub index: u32,
    pub message: OpenAiMessage,
    pub finish_reason: Option<String>,
}

/// One reply in the vendor's shape.
#[derive(Debug)]
pub struct OpenAiResponse {
    pub id: String,
    pub object: String,
    pub created: u64,
    pub model: String,
    pub choices: Vec<OpenAiChoice>,
    pub usage: Option<OpenAiUsage>,
}

/// The model of an [`OpenAiChoice`].
pub ghost struct OpenAiChoiceView {
    pub index: u32,
    pub message: OpenAiMessageView,
    pub finish_reason: Option<Seq<char>>,
}

impl DeepView for OpenAiChoice {
    type V = OpenAiChoiceView;

    open spec fn deep_view(&self) -> OpenAiChoiceView {
        OpenAiChoiceView {
            index: self.index,
            message: self.message.deep_view(),
            finish_reason: self.finish_reason.deep_view(),
        }
    }
}

/// The model of an [`OpenAiResponse`].
pub ghost struct OpenAiResponseView {
    pub id: Seq<char>,
    pub object: Seq<char>,
    pub created: u64,
    pub model: Seq<char>,
    pub choices: Seq<OpenAiChoiceView>,
    pub usage: Option<OpenAiUsage>,
}

impl DeepView for OpenAiResponse {
    type V = OpenAiResponseView;

    open spec fn deep_view(&self) -> OpenAiResponseView {
        OpenAiResponseView {
            id: self.id@,
            object: self.object@,
            created: self.created,
            model: self.model@,
            choices: self.choices.deep_view(),
            usage: self.usage,
        }
    }
}

/// Why a call of the vendor failed.
#[derive(Debug)]
pub enum ProviderError {
    /// The vendor answered with a status that is no success.
    Api { status: String, body: String },
    /// The answer is not a reply in the vendor's shape.
    Malformed,
    /// The reply holds no choice.
    NoChoices,
}

/// The model of a [`ProviderError`].
pub ghost enum ProviderErrorView {
    Api { status: Seq<char>, body: Seq<char> },
    Malformed,
    NoChoices,
}

impl DeepView for ProviderError {
    type V = ProviderErrorView;

    open spec fn deep_view(&self) -> ProviderErrorView {
        match self {
            ProviderError::Api { status, body } => ProviderErrorView::Api {
                status: status@,
                body: body@,
            },
            ProviderError::Malformed => ProviderErrorView::Malformed,
            ProviderError::NoChoices => ProviderErrorView::NoChoices,
        }
    }
}

impl ProviderErrorView {
    /// The error in words.
    pub open spec fn message(self) -> Seq<char> {
        match self {
            ProviderErrorView::Api { status, body } => "OpenAI API error ("@ + status + "): "@ + body,
            ProviderErrorView::Malformed => "Failed to parse OpenAI API response"@,
            ProviderErrorView::NoChoices => "No choices in OpenAI response"@,
        }
    }
}

impl ProviderError {
    /// The error in words.
    pub fn message(&self) -> (r: String)
        ensures
            r@ == self.deep_view().message(),
    {
        match self {
            ProviderError::Api { status, body } => {
                let head = concat3("OpenAI API error (", status.as_str(), "): ");
                concat(head.as_str(), body.as_str())
            },
            ProviderError::Malformed => "Failed to parse OpenAI API response".to_string(),
            ProviderError::NoChoices => "No choices in OpenAI response".to_string(),
        }
    }
}

/// The text that stands for a block of reasoning in a vendor message.
pub open spec fn thinking_text(text: Seq<char>) -> Seq<char> {
    "[Internal reasoning: "@ + text + "]"@
}

/// The texts that the blocks contribute to their message, in order: each
/// `Text` block that is not empty, and each `Thinking` block in its marked
/// form.
pub open spec fn text_parts(blocks: Seq<ContentBlockView>) -> Seq<Seq<char>>
    decreases blocks.len(),
{
    if blocks.len() == 0 {
        Seq::empty()
    } else {
        let rest = text_parts(blocks.drop_last());
        match blocks.last() {
            ContentBlockView::Text { text } => if text.len() > 0 {
                rest.push(text)
            } else {
                rest
            },
            ContentBlockView::Thinking { text } => rest.push(thinking_text(text)),
            _ => rest,
        }
    }
}

/// The tool calls among the blocks, in order, each with its input printed as
/// JSON text.
pub open spec fn tool_calls_of(blocks: Seq<ContentBlockView>) -> Seq<ToolCallView>
    decreases blocks.len(),
{
    if blocks.len() == 0 {
        Seq::empty()
    } else {
        let rest = tool_calls_of(blocks.drop_last());
        match blocks.last() {
            ContentBlockView::ToolUse { id, name, input } => rest.push(
                ToolCallView {
                    id,
                    tool_type: "function"@,
                    name,
                    arguments: text_or_empty(input),
                },
            ),
            _ => rest,
        }
    }
}

/// The text of a tool's answer: its content, or `No output`; behind `Error: `
/// where the answer is flagged as an error.
pub open spec fn tool_result_text(content: Option<Seq<char>>, is_error: Option<bool>) -> Seq<char> {
    let shown = match content {
        Some(c) => c,
        None => "No output"@,
    };
    if is_error == Some(true) {
        "Error: "@ + shown
    } else {
        shown
    }
}

/// The messages of role `tool`, one for each tool result among the blocks,
/// in order.
pub open spec fn tool_result_messages(blocks: Seq<ContentBlockView>) -> Seq<OpenAiMessageView>
    decreases blocks.len(),
{
    if blocks.len() == 0 {
        Seq::empty()
    } else {
        let rest = tool_result_messages(blocks.drop_last());
        match blocks.last() {
            ContentBlockView::ToolResult { tool_use_id, content, is_error } => rest.push(
                OpenAiMessageView::tool(tool_use_id, tool_result_text(content, is_error)),
            ),
            _ => rest,
        }
    }
}

/// The message that carries the texts and tool calls of the blocks. An
/// assistant message is always there, with its tool calls attached; a user
/// message is there only where it has text.
pub open spec fn lead_messages(blocks: Seq<ContentBlockView>, role: Role) -> Seq<OpenAiMessageView> {
    let parts = text_parts(blocks);
    let calls = tool_calls_of(blocks);
    match role {
        Role::Assistant => seq![
            OpenAiMessageView {
                role: "assistant"@,
                content: if parts.len() == 0 {
                    None
                } else {
                    Some(WireContentView::Text(joined(parts, "\n"@)))
                },
                tool_calls: if calls.len() == 0 {
                    None
                } else {
                    Some(calls)
                },
                tool_call_id: None,
            },
        ],
        Role::User => if parts.len() == 0 {
            Seq::empty()
        } else {
            seq![OpenAiMessageView::plain("user"@, joined(parts, "\n"@))]
        },
    }
}

/// The vendor messages for the blocks of one message: the message itself,
/// then one message of role `tool` for each tool result.
pub open spec fn block_messages(blocks: Seq<ContentBlockView>, role: Role) -> Seq<OpenAiMessageView> {
    lead_messages(blocks, role) + tool_result_messages(blocks)
}

/// The vendor messages for one canonical message.
pub open spec fn message_messages(message: MessageView) -> Seq<OpenAiMessageView> {
    match message.content {
        MessageContentView::Text(text) => seq![OpenAiMessageView::plain(message.role.name(), text)],
        MessageContentView::Blocks(blocks) => block_messages(blocks, message.role),
    }
}

/// The vendor messages for a conversation, in order.
pub open spec fn conversation_messages(messages: Seq<MessageView>) -> Seq<OpenAiMessageView>
    decreases messages.len(),
{
    if messages.len() == 0 {
        Seq::empty()
    } else {
        conversation_messages(messages.drop_last()) + message_messages(messages.last())
    }
}

/// The text of a system prompt: its text, or its blocks joined by newlines.
pub open spec fn system_text(system: SystemPromptView) -> Seq<char> {
    match system {
        SystemPromptView::Text(text) => text,
        SystemPromptView::Blocks(blocks) => joined(blocks, "\n"@),
    }
}

/// The leading message of role `system`, where there is a system prompt.
pub open spec fn system_messages(system: Option<SystemPromptView>) -> Seq<OpenAiMessageView> {
    match system {
        Some(s) => seq![OpenAiMessageView::plain("system"@, system_text(s))],
        None => Seq::empty(),
    }
}

/// The members of the JSON object that describes a tool's parameters.
pub open spec fn schema_entries(schema: ToolInputSchemaView) -> Seq<(Seq<char>, serde_json::Value)> {
    let base = seq![("type"@, json_of_string(schema.schema_type))];
    let with_properties = match schema.properties {
        Some(p) => base.push(("properties"@, p)),
        None => base,
    };
    match schema.required {
        Some(names) => with_properties.push(("required"@, json_of_strings(names))),
        None => with_properties,
    }
}

/// The parameters of a tool: a JSON object where the schema names
/// properties or required members, else nothing.
pub open spec fn schema_parameters(schema: ToolInputSchemaView) -> Option<serde_json::Value> {
    if schema.properties is Some || schema.required is Some {
        Some(json_of_object(schema_entries(schema)))
    } else {
        None
    }
}

/// The custom tools in the vendor's shape, in order. Tools that the vendor's
/// function calling cannot express are left out.
pub open spec fn wire_tools(tools: Seq<ToolDefinitionView>) -> Seq<OpenAiToolView>
    decreases tools.len(),
{
    if tools.len() == 0 {
        Seq::empty()
    } else {
        let rest = wire_tools(tools.drop_last());
        match tools.last() {
            ToolDefinitionView::Custom(custom) => rest.push(
                OpenAiToolView {
                    tool_type: "function"@,
                    name: custom.name,
                    description: custom.description,
                    parameters: schema_parameters(custom.input_schema),
                },
            ),
            _ => rest,
        }
    }
}

/// The tool list of a request: the custom tools, or nothing where there is
/// none.
pub open spec fn converted_tools(tools: Seq<ToolDefinitionView>) -> Option<Seq<OpenAiToolView>> {
    let wire = wire_tools(tools);
    if wire.len() == 0 {
        None
    } else {
        Some(wire)
    }
}

/// The vendor's form of a tool choice; no choice means `auto`.
pub open spec fn converted_tool_choice(choice: Option<ToolChoiceView>) -> WireToolChoiceView {
    match choice {
        None | Some(ToolChoiceView::Auto) => WireToolChoiceView::Mode("auto"@),
        Some(ToolChoiceView::Any) => WireToolChoiceView::Mode("required"@),
        Some(ToolChoiceView::NoTools) => WireToolChoiceView::Mode("none"@),
        Some(ToolChoiceView::Tool { name }) => WireToolChoiceView::Function {
            choice_type: "function"@,
            name,
        },
    }
}

/// The canonical stop reason for a vendor finish code. A code that is not
/// known ends the turn.
pub open spec fn stop_reason_of(code: Seq<char>) -> StopReason {
    if code == "stop"@ {
        StopReason::EndTurn
    } else if code == "length"@ {
        StopReason::MaxTokens
    } else if code == "tool_calls"@ {
        StopReason::ToolUse
    } else if code == "content_filter"@ {
        StopReason::Refusal
    } else {
        StopReason::EndTurn
    }
}

/// Whether a model of this name is of the reasoning class: it takes its
/// token limit as `max_completion_tokens` and no temperature.
pub open spec fn reasoning_model(model: Seq<char>) -> bool {
    begins_with(model, "o1-"@) || begins_with(model, "o3-"@) || begins_with(model, "gpt-5"@)
}

/// The canonical usage for the vendor's counts; zero where there are none.
pub open spec fn usage_of(usage: Option<OpenAiUsage>) -> Usage {
    match usage {
        Some(u) => Usage::of(u.prompt_tokens, u.completion_tokens),
        None => Usage::of(0, 0),
    }
}

/// Maps a vendor finish code to the canonical stop reason.
pub fn map_finish_reason(code: &str) -> (r: StopReason)
    ensures
        r == stop_reason_of(code@),
{
    if str_eq(code, "stop") {
        StopReason::EndTurn
    } else if str_eq(code, "length") {
        StopReason::MaxTokens
    } else if str_eq(code, "tool_calls") {
        StopReason::ToolUse
    } else if str_eq(code, "content_filter") {
        StopReason::Refusal
    } else {
        StopReason::EndTurn
    }
}

/// Whether a model of this name is of the reasoning class.
pub fn is_reasoning_model(model: &str) -> (r: bool)
    ensures
        r == reasoning_model(model@),
{
    starts_with(model, "o1-") || starts_with(model, "o3-") || starts_with(model, "gpt-5")
}

/// The canonical usage for the vendor's counts; zero where there are none.
pub fn convert_usage(usage: &Option<OpenAiUsage>) -> (r: Usage)
    ensures
        r == usage_of(*usage),
{
    match usage {
        Some(u) => Usage::new(u.prompt_tokens, u.completion_tokens),
        None => Usage::new(0, 0),
    }
}

/// The settings of a provider for an OpenAI-style API.
#[derive(Debug)]
pub struct OpenAiProvider {
    pub api_key: String,
    pub base_url: Option<String>,
    pub model: String,
    pub max_tokens: u32,
    pub api_base: String,
}

/// The model of an [`OpenAiProvider`].
pub ghost struct OpenAiProviderView {
    pub api_key: Seq<char>,
    pub base_url: Option<Seq<char>>,
    pub model: Seq<char>,
    pub max_tokens: u32,
    pub api_base: Seq<char>,
}

impl DeepView for OpenAiProvider {
    type V = OpenAiProviderView;

    open spec fn deep_view(&self) -> OpenAiProviderView {
        OpenAiProviderView {
            api_key: self.api_key@,
            base_url: self.base_url.deep_view(),
            model: self.model@,
            max_tokens: self.max_tokens,
            api_base: self.api_base@,
        }
    }
}

impl OpenAiProviderView {
    /// The request for a conversation: the system prompt first, then the
    /// messages; the tools that the vendor can express, with a tool choice
    /// only where there are tools; the token limit under the name that the
    /// model's class takes, and a temperature of 1 unless the model is of the
    /// reasoning class.
    pub open spec fn request(
        self,
        messages: Seq<MessageView>,
        system: Option<SystemPromptView>,
        tools: Seq<ToolDefinitionView>,
        tool_choice: Option<ToolChoiceView>,
    ) -> OpenAiRequestView {
        let reasoning = reasoning_model(self.model);
        OpenAiRequestView {
            model: self.model,
            messages: system_messages(system) + conversation_messages(messages),
            max_tokens: if reasoning {
                None
            } else {
                Some(self.max_tokens)
            },
            max_completion_tokens: if reasoning {
                Some(self.max_tokens)
            } else {
                None
            },
            temperature: if reasoning {
                None
            } else {
                Some(Temperature { thousandths: 1000 })
            },
            tools: converted_tools(tools),
            tool_choice: if converted_tools(tools) is Some {
                Some(converted_tool_choice(tool_choice))
            } else {
                None
            },
            stream: None,
            stream_options: None,
        }
    }

    /// The address that requests go to.
    pub open spec fn completions_url(self) -> Seq<char> {
        let base = match self.base_url {
            Some(url) => url,
            None => self.api_base,
        };
        base + "/chat/completions"@
    }
}

impl OpenAiProvider {
    /// A provider with the API key given, no model yet, and the default
    /// token limit and API root.
    pub fn new(api_key: &str) -> (r: OpenAiProvider)
        ensures
            r.deep_view() == (OpenAiProviderView {
                api_key: api_key@,
                base_url: None,
                model: Seq::empty(),
                max_tokens: DEFAULT_MAX_TOKENS,
                api_base: DEFAULT_API_BASE@,
            }),
    {
        OpenAiProvider {
            api_key: api_key.to_string(),
            base_url: None,
            model: String::new(),
            max_tokens: DEFAULT_MAX_TOKENS,
            api_base: DEFAULT_API_BASE.to_string(),
        }
    }

    /// A provider from settings as the environment gives them: a token limit
    /// that is missing becomes the default.
    pub fn from_settings(
        api_key: &str,
        model: &str,
        base_url: Option<String>,
        max_tokens: Option<u32>,
    ) -> (r: OpenAiProvider)
        ensures
            r.deep_view() == (OpenAiProviderView {
                api_key: api_key@,
                base_url: base_url.deep_view(),
                model: model@,
                max_tokens: match max_tokens {
                    Some(n) => n,
                    None => DEFAULT_MAX_TOKENS,
                },
                api_base: DEFAULT_API_BASE@,
            }),
    {
        OpenAiProvider {
            api_key: api_key.to_string(),
            base_url,
            model: model.to_string(),
            max_tokens: match max_tokens {
                Some(n) => n,
                None => DEFAULT_MAX_TOKENS,
            },
            api_base: DEFAULT_API_BASE.to_string(),
        }
    }

    /// The same provider for the model given.
    pub fn with_model(self, model: &str) -> (r: OpenAiProvider)
        ensures
            r.deep_view() == (OpenAiProviderView { model: model@, ..self.deep_view() }),
    {
        let mut provider = self;
        provider.model = model.to_string();
        provider
    }

    /// The same provider with the token limit given.
    pub fn with_max_tokens(self, max_tokens: u32) -> (r: OpenAiProvider)
        ensures
            r.deep_view() == (OpenAiProviderView { max_tokens, ..self.deep_view() }),
    {
        let mut provider = self;
        provider.max_tokens = max_tokens;
        provider
    }

    /// A provider with another model and token limit that shares this one's
    /// credentials and API root.
    pub fn create_variant(&self, model: &str, max_tokens: u32) -> (r: OpenAiProvider)
        ensures
            r.deep_view() == (OpenAiProviderView { model: model@, max_tokens, ..self.deep_view() }),
    {
        OpenAiProvider {
            api_key: self.api_key.clone(),
            base_url: clone_opt_string(&self.base_url),
            model: model.to_string(),
            max_tokens,
            api_base: self.api_base.clone(),
        }
    }

    /// The model that requests name.
    pub fn model(&self) -> (r: String)
        ensures
            r@ == self.model@,
    {
        self.model.clone()
    }

    /// The vendor's name.
    pub fn provider_name(&self) -> (r: &'static str)
        ensures
            r@ == "openai"@,
    {
        "openai"
    }

    /// The address that requests go to: the base URL of the credentials where
    /// they name one, else the API root, and the completions path behind it.
    pub fn completions_url(&self) -> (r: String)
        ensures
            r@ == self.deep_view().completions_url(),
    {
        match &self.base_url {
            Some(url) => concat(url.as_str(), "/chat/completions"),
            None => concat(self.api_base.as_str(), "/chat/completions"),
        }
    }

    /// The value of the `Authorization` header.
    pub fn authorization_header(&self) -> (r: String)
        ensures
            r@ == "Bearer "@ + self.api_key@,
    {
        concat("Bearer ", self.api_key.as_str())
    }

    /// Appends the vendor messages for the blocks of one canonical message.
    pub fn convert_blocks_to_messages(
        &self,
        blocks: &Vec<ContentBlock>,
        role: Role,
        openai_messages: &mut Vec<OpenAiMessage>,
    )
        ensures
            final(openai_messages).deep_view() == old(openai_messages).deep_view() + block_messages(
                blocks.deep_view(),
                role,
            ),
    {
        let mut parts: Vec<String> = Vec::new();
        let mut tool_calls: Vec<OpenAiToolCall> = Vec::new();
        let mut tool_results: Vec<OpenAiMessage> = Vec::new();
        let mut i: usize = 0;
        while i < blocks.len()
            invariant
                0 <= i <= blocks.len(),
                parts.deep_view() == text_parts(blocks.deep_view().take(i as int)),
                tool_calls.deep_view() == tool_calls_of(blocks.deep_view().take(i as int)),
                tool_results.deep_view() == tool_result_messages(blocks.deep_view().take(i as int)),
            decreases blocks.len() - i,
        {
            proof {
                let next = blocks.deep_view().take(i + 1);
                assert(next.drop_last() =~= blocks.deep_view().take(i as int));
                assert(next.last() == blocks[i as int].deep_view());
            }
            match &blocks[i] {
                ContentBlock::Text { text } => {
                    if !text.as_str().is_empty() {
                        let ghost before = parts;
                        parts.push(text.clone());
                        proof {
                            lemma_deep_view_push(before, parts, parts[parts.len() - 1]);
                        }
                    }
                },
                ContentBlock::ToolUse { id, name, input } => {
                    let call = OpenAiToolCall {
                        id: id.clone(),
                        tool_type: "function".to_string(),
                        function: OpenAiFunctionCall { name: name.clone(), arguments: to_text(input) },
                    };
                    let ghost before = tool_calls;
                    tool_calls.push(call);
                    proof {
                        lemma_deep_view_push(before, tool_calls, tool_calls[tool_calls.len() - 1]);
                    }
                },
                ContentBlock::ToolResult { tool_use_id, content, is_error } => {
                    let shown = match content {
                        Some(c) => c.clone(),
                        None => "No output".to_string(),
                    };
                    let flagged = match is_error {
                        Some(true) => true,
                        _ => false,
                    };
                    let formatted = if flagged {
                        concat("Error: ", shown.as_str())
                    } else {
                        shown
                    };
                    let ghost before = tool_results;
                    tool_results.push(OpenAiMessage::tool(tool_use_id.clone(), formatted));
                    proof {
                        lemma_deep_view_push(
                            before,
                            tool_results,
                            tool_results[tool_results.len() - 1],
                        );
                    }
                },
                ContentBlock::Thinking { text } => {
                    let ghost before = parts;
                    parts.push(concat3("[Internal reasoning: ", text.as_str(), "]"));
                    proof {
                        lemma_deep_view_push(before, parts, parts[parts.len() - 1]);
                    }
                },
                ContentBlock::RedactedThinking => {},
                ContentBlock::Image { .. } => {},
                ContentBlock::Document { .. } => {},
            }
            i += 1;
        }
        proof {
            assert(blocks.deep_view().take(blocks.len() as int) =~= blocks.deep_view());
        }
        let ghost start = *openai_messages;
        match role {
            Role::Assistant => {
                let content = if parts.len() == 0 {
                    None
                } else {
                    Some(OpenAiContent::Text(join(&parts, "\n")))
                };
                let calls = if tool_calls.len() == 0 {
                    None
                } else {
                    Some(tool_calls)
                };
                openai_messages.push(
                    OpenAiMessage {
                        role: "assistant".to_string(),
                        content,
                        tool_calls: calls,
                        tool_call_id: None,
                    },
                );
                proof {
                    lemma_deep_view_push(
                        start,
                        *openai_messages,
                        openai_messages[openai_messages.len() - 1],
                    );
                }
            },
            Role::User => {
                if parts.len() > 0 {
                    openai_messages.push(OpenAiMessage::plain("user", join(&parts, "\n")));
                    proof {
                        lemma_deep_view_push(
                            start,
                            *openai_messages,
                            openai_messages[openai_messages.len() - 1],
                        );
                    }
                }
            },
        }
        let ghost middle = *openai_messages;
        let ghost results = tool_results;
        openai_messages.append(&mut tool_results);
        proof {
            lemma_deep_view_add(middle, results, *openai_messages);
            assert(middle.deep_view() =~= start.deep_view() + lead_messages(blocks.deep_view(), role));
            assert(final(openai_messages).deep_view() =~= start.deep_view() + block_messages(
                blocks.deep_view(),
                role,
            ));
        }
    }

    /// The vendor messages for a conversation: the system prompt first, where
    /// there is one, then the messages in order.
    pub fn convert_messages(&self, messages: &Vec<Message>, system_prompt: &Option<SystemPrompt>) -> (r:
        Vec<OpenAiMessage>)
        ensures
            r.deep_view() == system_messages(system_prompt.deep_view()) + conversation_messages(
                messages.deep_view(),
            ),
    {
        let mut out: Vec<OpenAiMessage> = Vec::new();
        proof {
            assert(out.deep_view() =~= Seq::empty());
        }
        match system_prompt {
            Some(system) => {
                let system_text = match system {
                    SystemPrompt::Text(text) => text.clone(),
                    SystemPrompt::Blocks(blocks) => {
                        let mut texts: Vec<String> = Vec::new();
                        let mut k: usize = 0;
                        while k < blocks.len()
                            invariant
                                0 <= k <= blocks.len(),
                                texts.len() == k,
                                texts.deep_view() == blocks.deep_view().take(k as int),
                            decreases blocks.len() - k,
                        {
                            let ghost before = texts;
                            texts.push(blocks[k].text.clone());
                            proof {
                                lemma_deep_view_push(before, texts, texts[k as int]);
                                assert(blocks.deep_view().take(k + 1) =~= blocks.deep_view().take(
                                    k as int,
                                ).push(blocks[k as int].deep_view()));
                            }
                            k += 1;
                        }
                        proof {
                            assert(blocks.deep_view().take(blocks.len() as int) =~= blocks.deep_view());
                        }
                        join(&texts, "\n")
                    },
                };
                let ghost before = out;
                out.push(OpenAiMessage::plain("system", system_text));
                proof {
                    lemma_deep_view_push(before, out, out[0]);
                }
            },
            None => {},
        }
        proof {
            assert(out.deep_view() =~= system_messages(system_prompt.deep_view()));
        }
        let mut i: usize = 0;
        while i < messages.len()
            invariant
                0 <= i <= messages.len(),
                out.deep_view() == system_messages(system_prompt.deep_view()) + conversation_messages(
                    messages.deep_view().take(i as int),
                ),
            decreases messages.len() - i,
        {
            proof {
                let next = messages.deep_view().take(i + 1);
                assert(next.drop_last() =~= messages.deep_view().take(i as int));
                assert(next.last() == messages[i as int].deep_view());
            }
            let ghost before = out;
            match &messages[i].content {
                MessageContent::Text(text) => {
                    out.push(OpenAiMessage::plain(messages[i].role.as_str(), text.clone()));
                    proof {
                        lemma_deep_view_push(before, out, out[out.len() - 1]);
                    }
                },
                MessageContent::Blocks(blocks) => {
                    self.convert_blocks_to_messages(blocks, messages[i].role, &mut out);
                },
            }
            proof {
                assert(out.deep_view() =~= system_messages(system_prompt.deep_view()) + (
                conversation_messages(messages.deep_view().take(i as int)) + message_messages(
                    messages[i as int].deep_view(),
                )));
            }
            i += 1;
        }
        proof {
            assert(messages.deep_view().take(messages.len() as int) =~= messages.deep_view());
        }
        out
    }

    /// The parameters of a tool as a JSON object.
    pub fn convert_schema(&self, schema: &ToolInputSchema) -> (r: Option<serde_json::Value>)
        ensures
            r == schema_parameters(schema.deep_view()),
    {
        if schema.properties.is_some() || schema.required.is_some() {
            let mut entries: Vec<(String, serde_json::Value)> = Vec::new();
            entries.push(("type".to_string(), string(schema.schema_type.as_str())));
            match &schema.properties {
                Some(p) => {
                    entries.push(("properties".to_string(), p.clone()));
                },
                None => {},
            }
            match &schema.required {
                Some(names) => {
                    entries.push(("required".to_string(), array_of_strings(names)));
                },
                None => {},
            }
            proof {
                assert(crate::json::entry_views(entries@) =~= schema_entries(schema.deep_view()));
            }
            Some(object(entries))
        } else {
            None
        }
    }

    /// The tool list of a request.
    pub fn convert_tools(&self, tools: &Vec<ToolDefinition>) -> (r: Option<Vec<OpenAiTool>>)
        ensures
            r.deep_view() == converted_tools(tools.deep_view()),
    {
        let mut out: Vec<OpenAiTool> = Vec::new();
        let mut i: usize = 0;
        proof {
            assert(out.deep_view() =~= Seq::empty());
        }
        while i < tools.len()
            invariant
                0 <= i <= tools.len(),
                out.deep_view() == wire_tools(tools.deep_view().take(i as int)),
            decreases tools.len() - i,
        {
            proof {
                let next = tools.deep_view().take(i + 1);
                assert(next.drop_last() =~= tools.deep_view().take(i as int));
                assert(next.last() == tools[i as int].deep_view());
            }
            match &tools[i] {
                ToolDefinition::Custom(custom) => {
                    let tool = OpenAiTool {
                        tool_type: "function".to_string(),
                        function: OpenAiFunctionDefinition {
                            name: custom.name.clone(),
                            description: clone_opt_string(&custom.description),
                            parameters: self.convert_schema(&custom.input_schema),
                        },
                    };
                    let ghost before = out;
                    out.push(tool);
                    proof {
                        lemma_deep_view_push(before, out, out[out.len() - 1]);
                    }
                },
                ToolDefinition::Bash(_) => {},
                ToolDefinition::TextEditor(_) => {},
            }
            i += 1;
        }
        proof {
            assert(tools.deep_view().take(tools.len() as int) =~= tools.deep_view());
        }
        if out.len() == 0 {
            None
        } else {
            Some(out)
        }
    }

    /// The vendor's form of a tool choice; no choice means `auto`.
    pub fn convert_tool_choice(&self, tool_choice: &Option<ToolChoice>) -> (r: OpenAiToolChoice)
        ensures
            r.deep_view() == converted_tool_choice(tool_choice.deep_view()),
    {
        match tool_choice {
            Some(ToolChoice::Auto { .. }) => OpenAiToolChoice::Mode("auto".to_string()),
            None => OpenAiToolChoice::Mode("auto".to_string()),
            Some(ToolChoice::Any { .. }) => OpenAiToolChoice::Mode("required".to_string()),
            Some(ToolChoice::NoTools) => OpenAiToolChoice::Mode("none".to_string()),
            Some(ToolChoice::Tool { name, .. }) => OpenAiToolChoice::Function {
                choice_type: "function".to_string(),
                function: OpenAiFunctionChoice { name: name.clone() },
            },
        }
    }

    /// The request for a conversation. The setting for reasoning plays no
    /// part: this vendor has no parameter for it.
    pub fn build_request(
        &self,
        messages: &Vec<Message>,
        system: &Option<SystemPrompt>,
        tools: &Vec<ToolDefinition>,
        tool_choice: &Option<ToolChoice>,
        _thinking: &Option<ThinkingConfig>,
    ) -> (r: OpenAiRequest)
        ensures
            r.deep_view() == self.deep_view().request(
                messages.deep_view(),
                system.deep_view(),
                tools.deep_view(),
                tool_choice.deep_view(),
            ),
    {
        let openai_messages = self.convert_messages(messages, system);
        let openai_tools = self.convert_tools(tools);
        let openai_tool_choice = if openai_tools.is_some() {
            Some(self.convert_tool_choice(tool_choice))
        } else {
            None
        };
        let reasoning = is_reasoning_model(self.model.as_str());
        OpenAiRequest {
            model: self.model.clone(),
            messages: openai_messages,
            max_tokens: if reasoning {
                None
            } else {
                Some(self.max_tokens)
            },
            max_completion_tokens: if reasoning {
                Some(self.max_tokens)
            } else {
                None
            },
            temperature: if reasoning {
                None
            } else {
                Some(Temperature { thousandths: 1000 })
            },
            tools: openai_tools,
            tool_choice: openai_tool_choice,
            stream: None,
            stream_options: None,
        }
    }

    /// The request for a streamed reply: the same request, marked as a
    /// stream that reports usage.
    pub fn build_stream_request(
        &self,
        messages: &Vec<Message>,
        system: &Option<SystemPrompt>,
        tools: &Vec<ToolDefinition>,
        tool_choice: &Option<ToolChoice>,
        thinking: &Option<ThinkingConfig>,
    ) -> (r: OpenAiRequest)
        ensures
            r.deep_view() == (OpenAiRequestView {
                stream: Some(true),
                stream_options: Some(OpenAiStreamOptions { include_usage: true }),
                ..self.deep_view().request(
                    messages.deep_view(),
                    system.deep_view(),
                    tools.deep_view(),
                    tool_choice.deep_view(),
                )
            }),
    {
        let mut request = self.build_request(messages, system, tools, tool_choice, thinking);
        request.stream = Some(true);
        request.stream_options = Some(OpenAiStreamOptions { include_usage: true });
        request
    }
}

/// The blocks for the parts of a vendor message: each text part that is not
/// empty, in order. Image addresses are left out.
pub open spec fn part_blocks(parts: Seq<ContentPartView>) -> Seq<ContentBlockView>
    decreases parts.len(),
{
    if parts.len() == 0 {
        Seq::empty()
    } else {
        let rest = part_blocks(parts.drop_last());
        match parts.last() {
            ContentPartView::Text { text } => if text.len() > 0 {
                rest.push(ContentBlockView::Text { text })
            } else {
                rest
            },
            ContentPartView::ImageUrl { .. } => rest,
        }
    }
}

/// The blocks for the content of a vendor message.
pub open spec fn content_blocks(content: Option<WireContentView>) -> Seq<ContentBlockView> {
    match content {
        Some(WireContentView::Text(text)) => if text.len() > 0 {
            seq![ContentBlockView::Text { text }]
        } else {
            Seq::empty()
        },
        Some(WireContentView::Parts(parts)) => part_blocks(parts),
        None => Seq::empty(),
    }
}

/// The blocks for the tool calls of a vendor message, in order. Arguments
/// that are no JSON document become the empty object.
pub open spec fn call_blocks(calls: Seq<ToolCallView>) -> Seq<ContentBlockView>
    decreases calls.len(),
{
    if calls.len() == 0 {
        Seq::empty()
    } else {
        call_blocks(calls.drop_last()).push(
            ContentBlockView::ToolUse {
                id: calls.last().id,
                name: calls.last().name,
                input: parsed_or_empty(calls.last().arguments),
            },
        )
    }
}

/// The canonical blocks of a vendor message: its text first, then its tool
/// calls.
pub open spec fn message_blocks(message: OpenAiMessageView) -> Seq<ContentBlockView> {
    content_blocks(message.content) + match message.tool_calls {
        Some(calls) => call_blocks(calls),
        None => Seq::empty(),
    }
}

/// The canonical stop reason of a choice.
pub open spec fn finish_of(code: Option<Seq<char>>) -> Option<StopReason> {
    match code {
        Some(c) => Some(stop_reason_of(c)),
        None => None,
    }
}

/// The canonical reply for a vendor reply with at least one choice: the
/// content and the stop reason of its first choice.
pub open spec fn response_of(response: OpenAiResponseView) -> MessageResponseView
    recommends
        response.choices.len() > 0,
{
    MessageResponseView {
        id: response.id,
        role: Role::Assistant,
        content: message_blocks(response.choices[0].message),
        model: response.model,
        stop_reason: finish_of(response.choices[0].finish_reason),
        usage: usage_of(response.usage),
    }
}

/// What comes of a vendor reply: the canonical reply, or the error for a
/// reply without a choice.
pub open spec fn converted_response(response: OpenAiResponseView) -> Result<
    MessageResponseView,
    ProviderErrorView,
> {
    if response.choices.len() > 0 {
        Ok(response_of(response))
    } else {
        Err(ProviderErrorView::NoChoices)
    }
}

impl OpenAiProvider {
    /// The canonical blocks of a vendor message.
    pub fn convert_openai_message_to_blocks(&self, message: &OpenAiMessage) -> (r: Vec<ContentBlock>)
        ensures
            r.deep_view() == message_blocks(message.deep_view()),
    {
        let mut blocks: Vec<ContentBlock> = Vec::new();
        proof {
            assert(blocks.deep_view() =~= Seq::empty());
        }
        match &message.content {
            Some(OpenAiContent::Text(text)) => {
                if !text.as_str().is_empty() {
                    let ghost before = blocks;
                    blocks.push(ContentBlock::Text { text: text.clone() });
                    proof {
                        lemma_deep_view_push(before, blocks, blocks[0]);
                        assert(blocks.deep_view() =~= content_blocks(message.content.deep_view()));
                    }
                }
            },
            Some(OpenAiContent::Parts(parts)) => {
                let mut k: usize = 0;
                while k < parts.len()
                    invariant
                        0 <= k <= parts.len(),
                        blocks.deep_view() == part_blocks(parts.deep_view().take(k as int)),
                    decreases parts.len() - k,
                {
                    proof {
                        let next = parts.deep_view().take(k + 1);
                        assert(next.drop_last() =~= parts.deep_view().take(k as int));
                        assert(next.last() == parts[k as int].deep_view());
                    }
                    match &parts[k] {
                        OpenAiContentPart::Text { text } => {
                            if !text.as_str().is_empty() {
                                let ghost before = blocks;
                                blocks.push(ContentBlock::Text { text: text.clone() });
                                proof {
                                    lemma_deep_view_push(before, blocks, blocks[blocks.len() - 1]);
                                }
                            }
                        },
                        OpenAiContentPart::ImageUrl { .. } => {},
                    }
                    k += 1;
                }
                proof {
                    assert(parts.deep_view().take(parts.len() as int) =~= parts.deep_view());
                }
            },
            None => {},
        }
        let ghost texts = blocks.deep_view();
        assert(texts == content_blocks(message.content.deep_view()));
        match &message.tool_calls {
            Some(calls) => {
                let mut k: usize = 0;
                proof {
                    assert(texts + Seq::<ContentBlockView>::empty() =~= texts);
                }
                while k < calls.len()
                    invariant
                        0 <= k <= calls.len(),
                        blocks.deep_view() == texts + call_blocks(calls.deep_view().take(k as int)),
                    decreases calls.len() - k,
                {
                    proof {
                        let next = calls.deep_view().take(k + 1);
                        assert(next.drop_last() =~= calls.deep_view().take(k as int));
                        assert(next.last() == calls[k as int].deep_view());
                    }
                    let input = parse_or_empty(calls[k].function.arguments.as_str());
                    let ghost before = blocks;
                    blocks.push(
                        ContentBlock::tool_use(
                            calls[k].id.clone(),
                            calls[k].function.name.clone(),
                            input,
                        ),
                    );
                    proof {
                        lemma_deep_view_push(before, blocks, blocks[blocks.len() - 1]);
                        assert(blocks.deep_view() =~= texts + call_blocks(
                            calls.deep_view().take(k + 1),
                        ));
                    }
                    k += 1;
                }
                proof {
                    assert(calls.deep_view().take(calls.len() as int) =~= calls.deep_view());
                }
            },
            None => {
                proof {
                    assert(texts + Seq::<ContentBlockView>::empty() =~= texts);
                }
            },
        }
        blocks
    }

    /// The canonical reply for a vendor reply. A reply without a choice is an
    /// error; any other reply converts.
    pub fn convert_response(&self, response: &OpenAiResponse) -> (r: Result<
        MessageResponse,
        ProviderError,
    >)
        ensures
            match r {
                Ok(reply) => converted_response(response.deep_view()) == Ok::<
                    MessageResponseView,
                    ProviderErrorView,
                >(reply.deep_view()),
                Err(e) => converted_response(response.deep_view()) == Err::<
                    MessageResponseView,
                    ProviderErrorView,
                >(e.deep_view()),
            },
    {
        if response.choices.len() == 0 {
            return Err(ProviderError::NoChoices);
        }
        let choice = &response.choices[0];
        proof {
            assert(response.deep_view().choices[0] == choice.deep_view());
        }
        let content = self.convert_openai_message_to_blocks(&choice.message);
        let stop_reason = match &choice.finish_reason {
            Some(code) => Some(map_finish_reason(code.as_str())),
            None => None,
        };
        Ok(
            MessageResponse {
                id: response.id.clone(),
                role: Role::Assistant,
                content,
                model: response.model.clone(),
                stop_reason,
                usage: convert_usage(&response.usage),
            },
        )
    }
}

} // verus!

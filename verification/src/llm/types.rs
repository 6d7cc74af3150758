//! The canonical message model: a vendor-neutral form of a conversation, of
//! one model reply and of the events of a streamed reply.
//!
//! Every type has a mathematical model, reached with `deep_view()`, in which
//! texts are sequences of characters. Contracts are stated over these models.

use vstd::prelude::*;
use vstd::string::StringExecFns;

verus! {

/// Who wrote a message.
#[derive(Clone, Copy, Debug, PartialEq, Eq, Structural)]
pub enum Role {
    User,
    Assistant,
}

impl Role {
    /// The role's name on the wire.
    pub open spec fn name(self) -> Seq<char> {
        match self {
            Role::User => "user"@,
            Role::Assistant => "assistant"@,
        }
    }

    /// The role's name on the wire.
    pub fn as_str(&self) -> (r: &'static str)
        ensures
            r@ == self.name(),
    {
        match self {
            Role::User => "user",
            Role::Assistant => "assistant",
        }
    }
}

/// Why the model stopped producing output.
#[derive(Clone, Copy, Debug, PartialEq, Eq, Structural)]
pub enum StopReason {
    EndTurn,
    ToolUse,
    MaxTokens,
    Refusal,
}

/// Token counts of one reply.
#[derive(Clone, Copy, Debug, PartialEq, Eq, Structural)]
pub struct Usage {
    pub input_tokens: u32,
    pub output_tokens: u32,
    pub cache_creation_input_tokens: Option<u32>,
    pub cache_read_input_tokens: Option<u32>,
    pub thoughts_token_count: Option<u32>,
}

impl Usage {
    /// A usage with the two counts given and no cache or reasoning counts.
    pub open spec fn of(input_tokens: u32, output_tokens: u32) -> Usage {
        Usage {
            input_tokens,
            output_tokens,
            cache_creation_input_tokens: None,
            cache_read_input_tokens: None,
            thoughts_token_count: None,
        }
    }

    /// A usage with the two counts given and no cache or reasoning counts.
    pub fn new(input_tokens: u32, output_tokens: u32) -> (r: Usage)
        ensures
            r == Usage::of(input_tokens, output_tokens),
    {
        Usage {
            input_tokens,
            output_tokens,
            cache_creation_input_tokens: None,
            cache_read_input_tokens: None,
            thoughts_token_count: None,
        }
    }
}

/// One typed unit of message content.
#[derive(Debug)]
pub enum ContentBlock {
    Text { text: String },
    ToolUse { id: String, name: String, input: serde_json::Value },
    ToolResult { tool_use_id: String, content: Option<String>, is_error: Option<bool> },
    Thinking { text: String },
    RedactedThinking,
    Image { data: String, media_type: String },
    Document { data: String, media_type: String },
}

/// The model of a [`ContentBlock`].
pub ghost enum ContentBlockView {
    Text { text: Seq<char> },
    ToolUse { id: Seq<char>, name: Seq<char>, input: serde_json::Value },
    ToolResult { tool_use_id: Seq<char>, content: Option<Seq<char>>, is_error: Option<bool> },
    Thinking { text: Seq<char> },
    RedactedThinking,
    Image { data: Seq<char>, media_type: Seq<char> },
    Document { data: Seq<char>, media_type: Seq<char> },
}

impl DeepView for ContentBlock {
    type V = ContentBlockView;

    open spec fn deep_view(&self) -> ContentBlockView {
        match self {
            ContentBlock::Text { text } => ContentBlockView::Text { text: text@ },
            ContentBlock::ToolUse { id, name, input } => ContentBlockView::ToolUse {
                id: id@,
                name: name@,
                input: *input,
            },
            ContentBlock::ToolResult {
                tool_use_id,
                content,
                is_error,
            } => ContentBlockView::ToolResult {
                tool_use_id: tool_use_id@,
                content: content.deep_view(),
                is_error: *is_error,
            },
            ContentBlock::Thinking { text } => ContentBlockView::Thinking { text: text@ },
            ContentBlock::RedactedThinking => ContentBlockView::RedactedThinking,
            ContentBlock::Image { data, media_type } => ContentBlockView::Image {
                data: data@,
                media_type: media_type@,
            },
            ContentBlock::Document { data, media_type } => ContentBlockView::Document {
                data: data@,
                media_type: media_type@,
            },
        }
    }
}

/// Pushing an element pushes its model onto the model of the list.
pub proof fn lemma_deep_view_push<T: DeepView>(before: Vec<T>, after: Vec<T>, x: T)
    requires
        after@ == before@.push(x),
    ensures
        after.deep_view() == before.deep_view().push(x.deep_view()),
{
    assert(after.deep_view() =~= before.deep_view().push(x.deep_view()));
}

/// Concatenation of lists is concatenation of their models.
pub proof fn lemma_deep_view_add<T: DeepView>(a: Vec<T>, b: Vec<T>, sum: Vec<T>)
    requires
        sum@ == a@ + b@,
    ensures
        sum.deep_view() == a.deep_view() + b.deep_view(),
{
    assert(sum.deep_view() =~= a.deep_view() + b.deep_view());
}

/// A copy of an optional text.
pub fn clone_opt_string(s: &Option<String>) -> (r: Option<String>)
    ensures
        r.deep_view() == s.deep_view(),
{
    match s {
        Some(t) => Some(t.clone()),
        None => None,
    }
}

/// A copy of a list of texts.
pub fn clone_strings(v: &Vec<String>) -> (r: Vec<String>)
    ensures
        r.deep_view() == v.deep_view(),
{
    let mut out: Vec<String> = Vec::new();
    let mut i: usize = 0;
    while i < v.len()
        invariant
            0 <= i <= v.len(),
            out.len() == i,
            out.deep_view() == v.deep_view().take(i as int),
        decreases v.len() - i,
    {
        let ghost before = out;
        out.push(v[i].clone());
        proof {
            lemma_deep_view_push(before, out, out[i as int]);
            assert(v.deep_view().take(i + 1) =~= v.deep_view().take(i as int).push(
                v[i as int].deep_view(),
            ));
        }
        i += 1;
    }
    proof {
        assert(v.deep_view().take(v.len() as int) =~= v.deep_view());
    }
    out
}

impl Clone for ContentBlock {
    fn clone(&self) -> (r: Self)
        ensures
            r.deep_view() == self.deep_view(),
    {
        match self {
            ContentBlock::Text { text } => ContentBlock::Text { text: text.clone() },
            ContentBlock::ToolUse { id, name, input } => ContentBlock::ToolUse {
                id: id.clone(),
                name: name.clone(),
                input: input.clone(),
            },
            ContentBlock::ToolResult { tool_use_id, content, is_error } => ContentBlock::ToolResult {
                tool_use_id: tool_use_id.clone(),
                content: clone_opt_string(content),
                is_error: *is_error,
            },
            ContentBlock::Thinking { text } => ContentBlock::Thinking { text: text.clone() },
            ContentBlock::RedactedThinking => ContentBlock::RedactedThinking,
            ContentBlock::Image { data, media_type } => ContentBlock::Image {
                data: data.clone(),
                media_type: media_type.clone(),
            },
            ContentBlock::Document { data, media_type } => ContentBlock::Document {
                data: data.clone(),
                media_type: media_type.clone(),
            },
        }
    }
}

impl ContentBlock {
    /// A text block.
    pub fn text(text: &str) -> (r: ContentBlock)
        ensures
            r.deep_view() == (ContentBlockView::Text { text: text@ }),
    {
        ContentBlock::Text { text: text.to_string() }
    }

    /// A request of the model to call a tool.
    pub fn tool_use(id: String, name: String, input: serde_json::Value) -> (r: ContentBlock)
        ensures
            r.deep_view() == (ContentBlockView::ToolUse { id: id@, name: name@, input }),
    {
        ContentBlock::ToolUse { id, name, input }
    }

    /// The answer to the tool call `tool_use_id`.
    pub fn tool_result(tool_use_id: &str, content: Option<String>, is_error: Option<bool>) -> (r:
        ContentBlock)
        ensures
            r.deep_view() == (ContentBlockView::ToolResult {
                tool_use_id: tool_use_id@,
                content: content.deep_view(),
                is_error,
            }),
    {
        ContentBlock::ToolResult { tool_use_id: tool_use_id.to_string(), content, is_error }
    }

    /// An image, base64-encoded.
    pub fn image(data: String, media_type: String) -> (r: ContentBlock)
        ensures
            r.deep_view() == (ContentBlockView::Image { data: data@, media_type: media_type@ }),
    {
        ContentBlock::Image { data, media_type }
    }

    /// A document, base64-encoded.
    pub fn document(data: String, media_type: String) -> (r: ContentBlock)
        ensures
            r.deep_view() == (ContentBlockView::Document { data: data@, media_type: media_type@ }),
    {
        ContentBlock::Document { data, media_type }
    }
}

/// A copy of a list of blocks.
pub fn clone_blocks(v: &Vec<ContentBlock>) -> (r: Vec<ContentBlock>)
    ensures
        r.deep_view() == v.deep_view(),
{
    let mut out: Vec<ContentBlock> = Vec::new();
    let mut i: usize = 0;
    while i < v.len()
        invariant
            0 <= i <= v.len(),
            out.len() == i,
            out.deep_view() == v.deep_view().take(i as int),
        decreases v.len() - i,
    {
        let ghost before = out;
        out.push(v[i].clone());
        proof {
            lemma_deep_view_push(before, out, out[i as int]);
            assert(v.deep_view().take(i + 1) =~= v.deep_view().take(i as int).push(
                v[i as int].deep_view(),
            ));
        }
        i += 1;
    }
    proof {
        assert(v.deep_view().take(v.len() as int) =~= v.deep_view());
    }
    out
}

/// The texts of the `Text` blocks, in order, one after the other.
pub open spec fn blocks_text(blocks: Seq<ContentBlockView>) -> Seq<char>
    decreases blocks.len(),
{
    if blocks.len() == 0 {
        Seq::empty()
    } else {
        let rest = blocks_text(blocks.drop_last());
        match blocks.last() {
            ContentBlockView::Text { text } => rest + text,
            _ => rest,
        }
    }
}

/// The texts of the `Text` blocks, in order, one after the other.
pub fn text_of_blocks(blocks: &Vec<ContentBlock>) -> (r: String)
    ensures
        r@ == blocks_text(blocks.deep_view()),
{
    let mut out = String::new();
    let mut i: usize = 0;
    while i < blocks.len()
        invariant
            0 <= i <= blocks.len(),
            out@ == blocks_text(blocks.deep_view().take(i as int)),
        decreases blocks.len() - i,
    {
        proof {
            let next = blocks.deep_view().take(i + 1);
            assert(next.drop_last() =~= blocks.deep_view().take(i as int));
            assert(next.last() == blocks[i as int].deep_view());
        }
        match &blocks[i] {
            ContentBlock::Text { text } => {
                out.append(text.as_str());
            },
            _ => {},
        }
        i += 1;
    }
    proof {
        assert(blocks.deep_view().take(blocks.len() as int) =~= blocks.deep_view());
    }
    out
}

/// What a message holds: plain text, or blocks in order.
#[derive(Debug)]
pub enum MessageContent {
    Text(String),
    Blocks(Vec<ContentBlock>),
}

/// The model of a [`MessageContent`].
pub ghost enum MessageContentView {
    Text(Seq<char>),
    Blocks(Seq<ContentBlockView>),
}

impl DeepView for MessageContent {
    type V = MessageContentView;

    open spec fn deep_view(&self) -> MessageContentView {
        match self {
            MessageContent::Text(text) => MessageContentView::Text(text@),
            MessageContent::Blocks(blocks) => MessageContentView::Blocks(blocks.deep_view()),
        }
    }
}

/// One message of a conversation.
#[derive(Debug)]
pub struct Message {
    pub role: Role,
    pub content: MessageContent,
}

/// The model of a [`Message`].
pub ghost struct MessageView {
    pub role: Role,
    pub content: MessageContentView,
}

impl DeepView for Message {
    type V = MessageView;

    open spec fn deep_view(&self) -> MessageView {
        MessageView { role: self.role, content: self.content.deep_view() }
    }
}

impl MessageView {
    /// The text of the message: its plain text, or the texts of its `Text`
    /// blocks in order.
    pub open spec fn text(self) -> Seq<char> {
        match self.content {
            MessageContentView::Text(text) => text,
            MessageContentView::Blocks(blocks) => blocks_text(blocks),
        }
    }
}

impl Clone for Message {
    fn clone(&self) -> (r: Self)
        ensures
            r.deep_view() == self.deep_view(),
    {
        let content = match &self.content {
            MessageContent::Text(text) => MessageContent::Text(text.clone()),
            MessageContent::Blocks(blocks) => MessageContent::Blocks(clone_blocks(blocks)),
        };
        Message { role: self.role, content }
    }
}

impl Message {
    /// A user message of plain text.
    pub fn user(text: &str) -> (r: Message)
        ensures
            r.deep_view() == (MessageView {
                role: Role::User,
                content: MessageContentView::Text(text@),
            }),
    {
        Message { role: Role::User, content: MessageContent::Text(text.to_string()) }
    }

    /// An assistant message of plain text.
    pub fn assistant(text: &str) -> (r: Message)
        ensures
            r.deep_view() == (MessageView {
                role: Role::Assistant,
                content: MessageContentView::Text(text@),
            }),
    {
        Message { role: Role::Assistant, content: MessageContent::Text(text.to_string()) }
    }

    /// A user message of blocks.
    pub fn user_with_blocks(blocks: Vec<ContentBlock>) -> (r: Message)
        ensures
            r.deep_view() == (MessageView {
                role: Role::User,
                content: MessageContentView::Blocks(blocks.deep_view()),
            }),
    {
        Message { role: Role::User, content: MessageContent::Blocks(blocks) }
    }

    /// An assistant message of blocks.
    pub fn assistant_with_blocks(blocks: Vec<ContentBlock>) -> (r: Message)
        ensures
            r.deep_view() == (MessageView {
                role: Role::Assistant,
                content: MessageContentView::Blocks(blocks.deep_view()),
            }),
    {
        Message { role: Role::Assistant, content: MessageContent::Blocks(blocks) }
    }

    /// The text of the message: its plain text, or the texts of its `Text`
    /// blocks in order.
    pub fn text(&self) -> (r: String)
        ensures
            r@ == self.deep_view().text(),
    {
        match &self.content {
            MessageContent::Text(text) => text.clone(),
            MessageContent::Blocks(blocks) => text_of_blocks(blocks),
        }
    }
}

/// A copy of a list of messages.
pub fn clone_messages(v: &Vec<Message>) -> (r: Vec<Message>)
    ensures
        r.deep_view() == v.deep_view(),
{
    let mut out: Vec<Message> = Vec::new();
    let mut i: usize = 0;
    while i < v.len()
        invariant
            0 <= i <= v.len(),
            out.len() == i,
            out.deep_view() == v.deep_view().take(i as int),
        decreases v.len() - i,
    {
        let ghost before = out;
        out.push(v[i].clone());
        proof {
            lemma_deep_view_push(before, out, out[i as int]);
            assert(v.deep_view().take(i + 1) =~= v.deep_view().take(i as int).push(
                v[i as int].deep_view(),
            ));
        }
        i += 1;
    }
    proof {
        assert(v.deep_view().take(v.len() as int) =~= v.deep_view());
    }
    out
}

/// One reply of the model.
#[derive(Debug)]
pub struct MessageResponse {
    pub id: String,
    pub role: Role,
    pub content: Vec<ContentBlock>,
    pub model: String,
    pub stop_reason: Option<StopReason>,
    pub usage: Usage,
}

/// The model of a [`MessageResponse`].
pub ghost struct MessageResponseView {
    pub id: Seq<char>,
    pub role: Role,
    pub content: Seq<ContentBlockView>,
    pub model: Seq<char>,
    pub stop_reason: Option<StopReason>,
    pub usage: Usage,
}

impl DeepView for MessageResponse {
    type V = MessageResponseView;

    open spec fn deep_view(&self) -> MessageResponseView {
        MessageResponseView {
            id: self.id@,
            role: self.role,
            content: self.content.deep_view(),
            model: self.model@,
            stop_reason: self.stop_reason,
            usage: self.usage,
        }
    }
}

impl MessageResponse {
    /// The texts of the reply's `Text` blocks, in order, one after the other.
    pub fn text(&self) -> (r: String)
        ensures
            r@ == blocks_text(self.content.deep_view()),
    {
        text_of_blocks(&self.content)
    }
}

/// What a streamed reply announces first.
#[derive(Debug)]
pub struct MessageStartData {
    pub id: String,
    pub role: Role,
    pub model: String,
    pub usage: Usage,
}

/// The opening event of a streamed reply.
#[derive(Debug)]
pub struct MessageStartEvent {
    pub message: MessageStartData,
}

/// The kind of a block that a stream opens.
#[derive(Debug)]
pub enum ContentBlockStart {
    Text { text: String },
    ToolUse { id: String, name: String, input: serde_json::Value },
}

/// A block was opened at `index`.
#[derive(Debug)]
pub struct ContentBlockStartEvent {
    pub index: usize,
    pub content_block: ContentBlockStart,
}

/// A piece of content for an open block.
#[derive(Debug)]
pub enum ContentDelta {
    TextDelta { text: String },
    InputJsonDelta { partial_json: String },
}

/// A piece of content arrived for the block at `index`.
#[derive(Debug)]
pub struct ContentBlockDeltaEvent {
    pub index: usize,
    pub delta: ContentDelta,
}

/// The block at `index` was closed.
#[derive(Debug)]
pub struct ContentBlockStopEvent {
    pub index: usize,
}

/// What changed of the reply as a whole.
#[derive(Debug)]
pub struct MessageDeltaData {
    pub stop_reason: Option<StopReason>,
}

/// Output tokens counted so far.
#[derive(Clone, Copy, Debug, PartialEq, Eq, Structural)]
pub struct DeltaUsage {
    pub output_tokens: u32,
}

/// The reply as a whole changed: it stopped.
#[derive(Debug)]
pub struct MessageDeltaEvent {
    pub delta: MessageDeltaData,
    pub usage: DeltaUsage,
}

/// One event of a streamed reply.
#[derive(Debug)]
pub enum StreamEvent {
    MessageStart(MessageStartEvent),
    ContentBlockStart(ContentBlockStartEvent),
    ContentBlockDelta(ContentBlockDeltaEvent),
    ContentBlockStop(ContentBlockStopEvent),
    MessageDelta(MessageDeltaEvent),
    MessageStop,
}

/// The model of a [`ContentBlockStart`].
pub ghost enum BlockStartView {
    Text { text: Seq<char> },
    ToolUse { id: Seq<char>, name: Seq<char>, input: serde_json::Value },
}

/// The model of a [`ContentDelta`].
pub ghost enum DeltaView {
    Text { text: Seq<char> },
    InputJson { partial_json: Seq<char> },
}

/// The model of a [`StreamEvent`].
pub ghost enum StreamEventView {
    MessageStart { id: Seq<char>, role: Role, model: Seq<char>, usage: Usage },
    ContentBlockStart { index: nat, block: BlockStartView },
    ContentBlockDelta { index: nat, delta: DeltaView },
    ContentBlockStop { index: nat },
    MessageDelta { stop_reason: Option<StopReason>, output_tokens: u32 },
    MessageStop,
}

impl DeepView for ContentBlockStart {
    type V = BlockStartView;

    open spec fn deep_view(&self) -> BlockStartView {
        match self {
            ContentBlockStart::Text { text } => BlockStartView::Text { text: text@ },
            ContentBlockStart::ToolUse { id, name, input } => BlockStartView::ToolUse {
                id: id@,
                name: name@,
                input: *input,
            },
        }
    }
}

impl DeepView for ContentDelta {
    type V = DeltaView;

    open spec fn deep_view(&self) -> DeltaView {
        match self {
            ContentDelta::TextDelta { text } => DeltaView::Text { text: text@ },
            ContentDelta::InputJsonDelta { partial_json } => DeltaView::InputJson {
                partial_json: partial_json@,
            },
        }
    }
}

impl DeepView for StreamEvent {
    type V = StreamEventView;

    open spec fn deep_view(&self) -> StreamEventView {
        match self {
            StreamEvent::MessageStart(e) => StreamEventView::MessageStart {
                id: e.message.id@,
                role: e.message.role,
                model: e.message.model@,
                usage: e.message.usage,
            },
            StreamEvent::ContentBlockStart(e) => StreamEventView::ContentBlockStart {
                index: e.index as nat,
                block: e.content_block.deep_view(),
            },
            StreamEvent::ContentBlockDelta(e) => StreamEventView::ContentBlockDelta {
                index: e.index as nat,
                delta: e.delta.deep_view(),
            },
            StreamEvent::ContentBlockStop(e) => StreamEventView::ContentBlockStop {
                index: e.index as nat,
            },
            StreamEvent::MessageDelta(e) => StreamEventView::MessageDelta {
                stop_reason: e.delta.stop_reason,
                output_tokens: e.usage.output_tokens,
            },
            StreamEvent::MessageStop => StreamEventView::MessageStop,
        }
    }
}

impl StreamEvent {
    /// The opening event of a reply.
    pub fn message_start(id: String, model: String, usage: Usage) -> (r: StreamEvent)
        ensures
            r.deep_view() == (StreamEventView::MessageStart {
                id: id@,
                role: Role::Assistant,
                model: model@,
                usage,
            }),
    {
        StreamEvent::MessageStart(
            MessageStartEvent { message: MessageStartData { id, role: Role::Assistant, model, usage } },
        )
    }

    /// A text block opens at `index`, empty.
    pub fn text_start(index: usize) -> (r: StreamEvent)
        ensures
            r.deep_view() == (StreamEventView::ContentBlockStart {
                index: index as nat,
                block: BlockStartView::Text { text: Seq::empty() },
            }),
    {
        StreamEvent::ContentBlockStart(
            ContentBlockStartEvent {
                index,
                content_block: ContentBlockStart::Text { text: String::new() },
            },
        )
    }

    /// A tool call opens at `index`, with an empty object as its input.
    pub fn tool_use_start(index: usize, id: String, name: String) -> (r: StreamEvent)
        ensures
            r.deep_view() == (StreamEventView::ContentBlockStart {
                index: index as nat,
                block: BlockStartView::ToolUse {
                    id: id@,
                    name: name@,
                    input: crate::json::empty_object_value(),
                },
            }),
    {
        StreamEvent::ContentBlockStart(
            ContentBlockStartEvent {
                index,
                content_block: ContentBlockStart::ToolUse {
                    id,
                    name,
                    input: crate::json::empty_object(),
                },
            },
        )
    }

    /// More text for the block at `index`.
    pub fn text_delta(index: usize, text: String) -> (r: StreamEvent)
        ensures
            r.deep_view() == (StreamEventView::ContentBlockDelta {
                index: index as nat,
                delta: DeltaView::Text { text: text@ },
            }),
    {
        StreamEvent::ContentBlockDelta(
            ContentBlockDeltaEvent { index, delta: ContentDelta::TextDelta { text } },
        )
    }

    /// More of the arguments of the tool call at `index`, as raw text.
    pub fn input_json_delta(index: usize, partial_json: String) -> (r: StreamEvent)
        ensures
            r.deep_view() == (StreamEventView::ContentBlockDelta {
                index: index as nat,
                delta: DeltaView::InputJson { partial_json: partial_json@ },
            }),
    {
        StreamEvent::ContentBlockDelta(
            ContentBlockDeltaEvent { index, delta: ContentDelta::InputJsonDelta { partial_json } },
        )
    }

    /// The block at `index` closes.
    pub fn block_stop(index: usize) -> (r: StreamEvent)
        ensures
            r.deep_view() == (StreamEventView::ContentBlockStop { index: index as nat }),
    {
        StreamEvent::ContentBlockStop(ContentBlockStopEvent { index })
    }

    /// The reply stopped.
    pub fn message_delta(stop_reason: Option<StopReason>, output_tokens: u32) -> (r: StreamEvent)
        ensures
            r.deep_view() == (StreamEventView::MessageDelta { stop_reason, output_tokens }),
    {
        StreamEvent::MessageDelta(
            MessageDeltaEvent {
                delta: MessageDeltaData { stop_reason },
                usage: DeltaUsage { output_tokens },
            },
        )
    }
}

/// The JSON-Schema-like description of a tool's input.
#[derive(Debug)]
pub struct ToolInputSchema {
    pub schema_type: String,
    pub properties: Option<serde_json::Value>,
    pub required: Option<Vec<String>>,
}

/// The model of a [`ToolInputSchema`].
pub ghost struct ToolInputSchemaView {
    pub schema_type: Seq<char>,
    pub properties: Option<serde_json::Value>,
    pub required: Option<Seq<Seq<char>>>,
}

impl DeepView for ToolInputSchema {
    type V = ToolInputSchemaView;

    open spec fn deep_view(&self) -> ToolInputSchemaView {
        ToolInputSchemaView {
            schema_type: self.schema_type@,
            properties: self.properties,
            required: self.required.deep_view(),
        }
    }
}

/// A tool that this program implements.
#[derive(Debug)]
pub struct CustomTool {
    pub name: String,
    pub description: Option<String>,
    pub input_schema: ToolInputSchema,
    pub tool_type: Option<String>,
}

/// The model of a [`CustomTool`].
pub ghost struct CustomToolView {
    pub name: Seq<char>,
    pub description: Option<Seq<char>>,
    pub input_schema: ToolInputSchemaView,
    pub tool_type: Option<Seq<char>>,
}

impl DeepView for CustomTool {
    type V = CustomToolView;

    open spec fn deep_view(&self) -> CustomToolView {
        CustomToolView {
            name: self.name@,
            description: self.description.deep_view(),
            input_schema: self.input_schema.deep_view(),
            tool_type: self.tool_type.deep_view(),
        }
    }
}

/// A tool that the vendor implements, named by its type.
#[derive(Debug)]
pub struct BuiltinTool {
    pub name: String,
    pub tool_type: String,
}

/// The model of a [`BuiltinTool`].
pub ghost struct BuiltinToolView {
    pub name: Seq<char>,
    pub tool_type: Seq<char>,
}

impl DeepView for BuiltinTool {
    type V = BuiltinToolView;

    open spec fn deep_view(&self) -> BuiltinToolView {
        BuiltinToolView { name: self.name@, tool_type: self.tool_type@ }
    }
}

/// The declaration of one callable tool.
#[derive(Debug)]
pub enum ToolDefinition {
    Custom(CustomTool),
    Bash(BuiltinTool),
    TextEditor(BuiltinTool),
}

/// The model of a [`ToolDefinition`].
pub ghost enum ToolDefinitionView {
    Custom(CustomToolView),
    Bash(BuiltinToolView),
    TextEditor(BuiltinToolView),
}

impl DeepView for ToolDefinition {
    type V = ToolDefinitionView;

    open spec fn deep_view(&self) -> ToolDefinitionView {
        match self {
            ToolDefinition::Custom(t) => ToolDefinitionView::Custom(t.deep_view()),
            ToolDefinition::Bash(t) => ToolDefinitionView::Bash(t.deep_view()),
            ToolDefinition::TextEditor(t) => ToolDefinitionView::TextEditor(t.deep_view()),
        }
    }
}

impl Clone for ToolDefinition {
    fn clone(&self) -> (r: Self)
        ensures
            r.deep_view() == self.deep_view(),
    {
        match self {
            ToolDefinition::Custom(t) => ToolDefinition::Custom(
                CustomTool {
                    name: t.name.clone(),
                    description: clone_opt_string(&t.description),
                    input_schema: ToolInputSchema {
                        schema_type: t.input_schema.schema_type.clone(),
                        properties: match &t.input_schema.properties {
                            Some(p) => Some(p.clone()),
                            None => None,
                        },
                        required: match &t.input_schema.required {
                            Some(names) => Some(clone_strings(names)),
                            None => None,
                        },
                    },
                    tool_type: clone_opt_string(&t.tool_type),
                },
            ),
            ToolDefinition::Bash(t) => ToolDefinition::Bash(
                BuiltinTool { name: t.name.clone(), tool_type: t.tool_type.clone() },
            ),
            ToolDefinition::TextEditor(t) => ToolDefinition::TextEditor(
                BuiltinTool { name: t.name.clone(), tool_type: t.tool_type.clone() },
            ),
        }
    }
}

/// Declares a custom tool whose input is an object with the properties given.
pub fn define_tool(
    name: &str,
    description: &str,
    properties: serde_json::Value,
    required: Vec<String>,
) -> (r: ToolDefinition)
    ensures
        r.deep_view() == ToolDefinitionView::Custom(
            CustomToolView {
                name: name@,
                description: Some(description@),
                input_schema: ToolInputSchemaView {
                    schema_type: "object"@,
                    properties: Some(properties),
                    required: Some(required.deep_view()),
                },
                tool_type: None,
            },
        ),
{
    ToolDefinition::Custom(
        CustomTool {
            name: name.to_string(),
            description: Some(description.to_string()),
            input_schema: ToolInputSchema {
                schema_type: "object".to_string(),
                properties: Some(properties),
                required: Some(required),
            },
            tool_type: None,
        },
    )
}

/// How the model may choose among the tools.
#[derive(Debug)]
pub enum ToolChoice {
    /// The model decides whether to call a tool.
    Auto { disable_parallel_tool_use: Option<bool> },
    /// The model must call some tool.
    Any { disable_parallel_tool_use: Option<bool> },
    /// The model must call the tool named.
    Tool { name: String, disable_parallel_tool_use: Option<bool> },
    /// The model must not call a tool.
    NoTools,
}

/// The model of a [`ToolChoice`].
pub ghost enum ToolChoiceView {
    Auto,
    Any,
    Tool { name: Seq<char> },
    NoTools,
}

impl DeepView for ToolChoice {
    type V = ToolChoiceView;

    open spec fn deep_view(&self) -> ToolChoiceView {
        match self {
            ToolChoice::Auto { .. } => ToolChoiceView::Auto,
            ToolChoice::Any { .. } => ToolChoiceView::Any,
            ToolChoice::Tool { name, .. } => ToolChoiceView::Tool { name: name@ },
            ToolChoice::NoTools => ToolChoiceView::NoTools,
        }
    }
}

impl ToolChoice {
    /// The model decides whether to call a tool.
    pub fn auto() -> (r: ToolChoice)
        ensures
            r.deep_view() == ToolChoiceView::Auto,
    {
        ToolChoice::Auto { disable_parallel_tool_use: None }
    }
}

/// Whether the model may reason before it answers, and with how many tokens.
#[derive(Clone, Copy, Debug, PartialEq, Eq, Structural)]
pub enum ThinkingConfig {
    Enabled { budget_tokens: u32 },
    Disabled,
}

impl ThinkingConfig {
    /// Reasoning with a budget of `budget_tokens`.
    pub fn enabled(budget_tokens: u32) -> (r: ThinkingConfig)
        ensures
            r == (ThinkingConfig::Enabled { budget_tokens }),
    {
        ThinkingConfig::Enabled { budget_tokens }
    }
}

/// One block of a system prompt.
#[derive(Debug)]
pub struct SystemBlock {
    pub text: String,
}

impl DeepView for SystemBlock {
    type V = Seq<char>;

    open spec fn deep_view(&self) -> Seq<char> {
        self.text@
    }
}

/// The system prompt: one text, or blocks of text.
#[derive(Debug)]
pub enum SystemPrompt {
    Text(String),
    Blocks(Vec<SystemBlock>),
}

/// The model of a [`SystemPrompt`].
pub ghost enum SystemPromptView {
    Text(Seq<char>),
    Blocks(Seq<Seq<char>>),
}

impl DeepView for SystemPrompt {
    type V = SystemPromptView;

    open spec fn deep_view(&self) -> SystemPromptView {
        match self {
            SystemPrompt::Text(text) => SystemPromptView::Text(text@),
            SystemPrompt::Blocks(blocks) => SystemPromptView::Blocks(blocks.deep_view()),
        }
    }
}

} // verus!

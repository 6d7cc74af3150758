//! Decoding a streamed reply of an OpenAI-style API.
//!
//! The vendor sends frames, one per line, each with a partial update. The
//! decoder turns them into the canonical events of one reply: the reply
//! starts, blocks open, grow and close one at a time, the reply stops.
//!
//! Reading the lines and parsing a frame's JSON is the caller's part. The
//! decoder says what to do with each line, and what events each parsed frame
//! gives.

use std::collections::HashMap;
use vstd::prelude::*;
use vstd::string::StringExecFns;
use crate::json::empty_object_value;
use crate::llm::openai::{convert_usage, map_finish_reason, stop_reason_of, usage_of, OpenAiUsage};
use crate::llm::types::{
    lemma_deep_view_push, BlockStartView, DeltaView, Role, StreamEvent, StreamEventView,
};
use crate::text::{begins_with, rest_after, str_eq};

verus! {

/// The function part of a tool call fragment.
#[derive(Debug)]
pub struct OpenAiFunctionDelta {
    pub name: Option<String>,
    pub arguments: Option<String>,
}

/// A fragment of the tool call with the vendor's index `index`.
#[derive(Debug)]
pub struct OpenAiToolCallDelta {
    pub index: u32,
    pub id: Option<String>,
    pub tool_type: Option<String>,
    pub function: Option<OpenAiFunctionDelta>,
}

/// The partial update of one frame.
#[derive(Debug)]
pub struct OpenAiDelta {
    pub role: Option<String>,
    pub content: Option<String>,
    pub tool_calls: Option<Vec<OpenAiToolCallDelta>>,
}

/// One alternative of a frame.
#[derive(Debug)]
pub struct OpenAiStreamChoice {
    pub index: u32,
    pub delta: OpenAiDelta,
    pub finish_reason: Option<String>,
}

/// One parsed frame of a streamed reply.
#[derive(Debug)]
pub struct OpenAiStreamChunk {
    pub id: String,
    pub object: String,
    pub created: u64,
    pub model: String,
    pub choices: Vec<OpenAiStreamChoice>,
    pub usage: Option<OpenAiUsage>,
}

/// The model of an [`OpenAiToolCallDelta`]: the function part is seen by
/// what it carries.
pub ghost struct FragmentView {
    pub index: u32,
    pub id: Option<Seq<char>>,
    pub tool_type: Option<Seq<char>>,
    pub name: Option<Seq<char>>,
    pub arguments: Option<Seq<char>>,
}

impl DeepView for OpenAiToolCallDelta {
    type V = FragmentView;

    open spec fn deep_view(&self) -> FragmentView {
        FragmentView {
            index: self.index,
            id: self.id.deep_view(),
            tool_type: self.tool_type.deep_view(),
            name: match self.function {
                Some(f) => f.name.deep_view(),
                None => None,
            },
            arguments: match self.function {
                Some(f) => f.arguments.deep_view(),
                None => None,
            },
        }
    }
}

/// The model of an [`OpenAiStreamChoice`].
pub ghost struct ChoiceView {
    pub index: u32,
    pub role: Option<Seq<char>>,
    pub content: Option<Seq<char>>,
    pub tool_calls: Option<Seq<FragmentView>>,
    pub finish_reason: Option<Seq<char>>,
}

impl DeepView for OpenAiStreamChoice {
    type V = ChoiceView;

    open spec fn deep_view(&self) -> ChoiceView {
        ChoiceView {
            index: self.index,
            role: self.delta.role.deep_view(),
            content: self.delta.content.deep_view(),
            tool_calls: self.delta.tool_calls.deep_view(),
            finish_reason: self.finish_reason.deep_view(),
        }
    }
}

/// The model of an [`OpenAiStreamChunk`].
pub ghost struct ChunkView {
    pub id: Seq<char>,
    pub object: Seq<char>,
    pub created: u64,
    pub model: Seq<char>,
    pub choices: Seq<ChoiceView>,
    pub usage: Option<OpenAiUsage>,
}

impl DeepView for OpenAiStreamChunk {
    type V = ChunkView;

    open spec fn deep_view(&self) -> ChunkView {
        ChunkView {
            id: self.id@,
            object: self.object@,
            created: self.created,
            model: self.model@,
            choices: self.choices.deep_view(),
            usage: self.usage,
        }
    }
}

/// What to do with one line of the stream.
#[derive(Debug)]
pub enum LineAction {
    /// The line carries nothing: go on with the next.
    Skip,
    /// The line carries a frame: parse this text.
    Parse(String),
    /// The stream is over.
    End,
}

/// The model of a [`LineAction`].
pub ghost enum LineActionView {
    Skip,
    Parse(Seq<char>),
    End,
}

impl DeepView for LineAction {
    type V = LineActionView;

    open spec fn deep_view(&self) -> LineActionView {
        match self {
            LineAction::Skip => LineActionView::Skip,
            LineAction::Parse(data) => LineActionView::Parse(data@),
            LineAction::End => LineActionView::End,
        }
    }
}

/// What a line of the stream asks for. Only a line that begins with `data: `
/// counts. Its rest is the end marker `[DONE]`, nothing, or the text of a
/// frame.
pub open spec fn line_action(line: Seq<char>) -> LineActionView {
    if !begins_with(line, "data: "@) {
        LineActionView::Skip
    } else {
        let data = line.subrange("data: "@.len() as int, line.len() as int);
        if data == "[DONE]"@ {
            LineActionView::End
        } else if data.len() == 0 {
            LineActionView::Skip
        } else {
            LineActionView::Parse(data)
        }
    }
}

/// Says what one line of the stream asks for.
pub fn classify_line(line: &str) -> (r: LineAction)
    ensures
        r.deep_view() == line_action(line@),
{
    match rest_after(line, "data: ") {
        None => LineAction::Skip,
        Some(data) => {
            if str_eq(data, "[DONE]") {
                LineAction::End
            } else if data.is_empty() {
                LineAction::Skip
            } else {
                LineAction::Parse(data.to_string())
            }
        },
    }
}

/// The block that is open: its index among the blocks of the reply, and the
/// vendor's index of the tool call it belongs to, if it is one.
#[derive(Clone, Copy, Debug, PartialEq, Eq, Structural)]
pub struct OpenBlock {
    pub index: usize,
    pub tool: Option<u32>,
}

/// What is known so far of one tool call.
#[derive(Debug)]
pub struct CallProgress {
    pub index: u32,
    pub id: String,
    pub name: String,
    pub arguments: String,
}

/// The model of a [`CallProgress`].
pub ghost struct CallView {
    pub index: u32,
    pub id: Seq<char>,
    pub name: Seq<char>,
    pub arguments: Seq<char>,
}

impl DeepView for CallProgress {
    type V = CallView;

    open spec fn deep_view(&self) -> CallView {
        CallView { index: self.index, id: self.id@, name: self.name@, arguments: self.arguments@ }
    }
}

impl CallView {
    /// A tool call of which nothing is known yet.
    pub open spec fn blank(index: u32) -> CallView {
        CallView { index, id: Seq::empty(), name: Seq::empty(), arguments: Seq::empty() }
    }

    /// The call after a fragment: an id or a name that the fragment carries
    /// replaces the one known, and its arguments go behind those known.
    pub open spec fn with_fragment(self, fragment: FragmentView) -> CallView {
        CallView {
            index: self.index,
            id: match fragment.id {
                Some(id) => id,
                None => self.id,
            },
            name: match fragment.name {
                Some(name) => name,
                None => self.name,
            },
            arguments: match fragment.arguments {
                Some(arguments) => self.arguments + arguments,
                None => self.arguments,
            },
        }
    }
}

/// Whether a fragment carries content of its tool call, so that the call's
/// block must be open.
pub open spec fn fragment_has_content(fragment: FragmentView) -> bool {
    fragment.name is Some || fragment.arguments is Some
}

/// What is known of the call with the index `index`.
pub open spec fn call_known(calls: Map<u32, CallView>, index: u32) -> CallView {
    if calls.contains_key(index) {
        calls[index]
    } else {
        CallView::blank(index)
    }
}

/// The calls after a fragment: what is known of the fragment's call is
/// brought up to date and kept under the call's index.
pub open spec fn calls_after(calls: Map<u32, CallView>, fragment: FragmentView) -> Map<
    u32,
    CallView,
> {
    calls.insert(fragment.index, call_known(calls, fragment.index).with_fragment(fragment))
}

/// The models of the calls held under their indices.
pub open spec fn call_views(calls: Map<u32, CallProgress>) -> Map<u32, CallView> {
    Map::new(|index: u32| calls.contains_key(index), |index: u32| calls[index].deep_view())
}

/// The index after `n`, as far as the machine can count.
pub open spec fn next_after(n: usize) -> usize {
    if n < usize::MAX {
        (n + 1) as usize
    } else {
        n
    }
}

/// The model of a [`StreamDecoder`].
pub ghost struct DecoderView {
    /// The model that the reply is announced for.
    pub model: Seq<char>,
    /// Whether a frame was taken: the reply was announced.
    pub started: bool,
    /// The index that the next block gets.
    pub next_index: usize,
    /// The block that is open, if any.
    pub open: Option<OpenBlock>,
    /// What is known of the tool calls, each under the vendor's index.
    pub calls: Map<u32, CallView>,
    /// Whether the reply stopped.
    pub finished: bool,
}

impl DecoderView {
    /// The decoder before the first frame.
    pub open spec fn initial(model: Seq<char>) -> DecoderView {
        DecoderView {
            model,
            started: false,
            next_index: 0,
            open: None,
            calls: Map::empty(),
            finished: false,
        }
    }

    /// The event that closes the open block, if there is one.
    pub open spec fn closing(self) -> Seq<StreamEventView> {
        match self.open {
            Some(block) => seq![StreamEventView::ContentBlockStop { index: block.index as nat }],
            None => Seq::empty(),
        }
    }

    /// The decoder with a new block open, for text or for the tool call
    /// `tool`.
    pub open spec fn opened(self, tool: Option<u32>) -> DecoderView {
        DecoderView {
            open: Some(OpenBlock { index: self.next_index, tool }),
            next_index: next_after(self.next_index),
            ..self
        }
    }

    /// Whether the open block is a text block.
    pub open spec fn text_open(self) -> bool {
        self.open is Some && self.open->0.tool is None
    }

    /// Whether the open block belongs to the tool call `tool`.
    pub open spec fn tool_open(self, tool: u32) -> bool {
        self.open is Some && self.open->0.tool == Some(tool)
    }

    /// The decoder after a piece of text.
    pub open spec fn after_text(self, text: Seq<char>) -> DecoderView {
        if text.len() == 0 || self.text_open() {
            self
        } else {
            self.opened(None)
        }
    }

    /// The events for a piece of text. Empty text gives none. Text for the
    /// open text block is a delta. Other text closes the open block, opens a
    /// text block and is its first delta.
    pub open spec fn text_events(self, text: Seq<char>) -> Seq<StreamEventView> {
        if text.len() == 0 {
            Seq::empty()
        } else if self.text_open() {
            seq![
                StreamEventView::ContentBlockDelta {
                    index: self.open->0.index as nat,
                    delta: DeltaView::Text { text },
                },
            ]
        } else {
            self.closing() + seq![
                StreamEventView::ContentBlockStart {
                    index: self.next_index as nat,
                    block: BlockStartView::Text { text: Seq::empty() },
                },
                StreamEventView::ContentBlockDelta {
                    index: self.next_index as nat,
                    delta: DeltaView::Text { text },
                },
            ]
        }
    }

    /// Whether a fragment opens the block of its tool call: it carries
    /// content, and the call's block is not the open one.
    pub open spec fn fragment_opens(self, fragment: FragmentView) -> bool {
        fragment_has_content(fragment) && !self.tool_open(fragment.index)
    }

    /// The decoder after a fragment of a tool call.
    pub open spec fn after_fragment(self, fragment: FragmentView) -> DecoderView {
        let recorded = DecoderView { calls: calls_after(self.calls, fragment), ..self };
        if self.fragment_opens(fragment) {
            recorded.opened(Some(fragment.index))
        } else {
            recorded
        }
    }

    /// The events for a fragment of a tool call. The first fragment with
    /// content for a call whose block is not open closes the open block and
    /// opens a tool-use block with the id and name known and an empty input.
    /// A piece of the arguments is passed on as it is.
    pub open spec fn fragment_events(self, fragment: FragmentView) -> Seq<StreamEventView> {
        let call = call_known(self.calls, fragment.index).with_fragment(fragment);
        let start = if self.fragment_opens(fragment) {
            self.closing() + seq![
                StreamEventView::ContentBlockStart {
                    index: self.next_index as nat,
                    block: BlockStartView::ToolUse {
                        id: call.id,
                        name: call.name,
                        input: empty_object_value(),
                    },
                },
            ]
        } else {
            Seq::empty()
        };
        match fragment.arguments {
            Some(arguments) => start + seq![
                StreamEventView::ContentBlockDelta {
                    index: self.after_fragment(fragment).open->0.index as nat,
                    delta: DeltaView::InputJson { partial_json: arguments },
                },
            ],
            None => start,
        }
    }

    /// The decoder after the fragments of one frame, in order.
    pub open spec fn after_fragments(self, fragments: Seq<FragmentView>) -> DecoderView
        decreases fragments.len(),
    {
        if fragments.len() == 0 {
            self
        } else {
            self.after_fragments(fragments.drop_last()).after_fragment(fragments.last())
        }
    }

    /// The events for the fragments of one frame, in order.
    pub open spec fn fragments_events(self, fragments: Seq<FragmentView>) -> Seq<
        StreamEventView,
    >
        decreases fragments.len(),
    {
        if fragments.len() == 0 {
            Seq::empty()
        } else {
            self.fragments_events(fragments.drop_last()) + self.after_fragments(
                fragments.drop_last(),
            ).fragment_events(fragments.last())
        }
    }

    /// The decoder after a finish code: no block is open, the reply stopped.
    pub open spec fn after_finish(self) -> DecoderView {
        DecoderView { open: None, finished: true, ..self }
    }

    /// The events for a finish code: the open block closes, then the reply
    /// reports its stop reason and its output tokens.
    pub open spec fn finish_events(self, code: Seq<char>, usage: Option<OpenAiUsage>) -> Seq<
        StreamEventView,
    > {
        self.closing() + seq![
            StreamEventView::MessageDelta {
                stop_reason: Some(stop_reason_of(code)),
                output_tokens: match usage {
                    Some(u) => u.completion_tokens,
                    None => 0,
                },
            },
        ]
    }

    /// The decoder after the text of a choice.
    pub open spec fn after_content(self, content: Option<Seq<char>>) -> DecoderView {
        match content {
            Some(text) => self.after_text(text),
            None => self,
        }
    }

    /// The decoder after the text and the tool call fragments of a choice.
    pub open spec fn after_delta(self, delta: ChoiceView) -> DecoderView {
        let s = self.after_content(delta.content);
        match delta.tool_calls {
            Some(fragments) => s.after_fragments(fragments),
            None => s,
        }
    }

    /// The events for the text and the tool call fragments of a choice.
    pub open spec fn delta_events(self, delta: ChoiceView) -> Seq<StreamEventView> {
        let text = match delta.content {
            Some(text) => self.text_events(text),
            None => Seq::empty(),
        };
        match delta.tool_calls {
            Some(fragments) => text + self.after_content(delta.content).fragments_events(fragments),
            None => text,
        }
    }

    /// The decoder after one choice.
    pub open spec fn after_choice(self, choice: ChoiceView) -> DecoderView {
        let s = self.after_delta(choice);
        match choice.finish_reason {
            Some(_) => s.after_finish(),
            None => s,
        }
    }

    /// The events for one choice.
    pub open spec fn choice_events(self, choice: ChoiceView, usage: Option<OpenAiUsage>) -> Seq<
        StreamEventView,
    > {
        let s = self.after_delta(choice);
        match choice.finish_reason {
            Some(code) => self.delta_events(choice) + s.finish_events(code, usage),
            None => self.delta_events(choice),
        }
    }

    /// The decoder after a frame. Once the reply has stopped, frames change
    /// nothing.
    pub open spec fn after_chunk(self, chunk: ChunkView) -> DecoderView {
        if self.finished {
            self
        } else {
            let s = DecoderView { started: true, ..self };
            if chunk.choices.len() > 0 {
                s.after_choice(chunk.choices[0])
            } else {
                s
            }
        }
    }

    /// The events for a frame. The first frame announces the reply, with the
    /// frame's id and usage. Then come the events of its first choice. Once
    /// the reply has stopped, frames give no events.
    pub open spec fn chunk_events(self, chunk: ChunkView) -> Seq<StreamEventView> {
        if self.finished {
            Seq::empty()
        } else {
            let start = if self.started {
                Seq::empty()
            } else {
                seq![
                    StreamEventView::MessageStart {
                        id: chunk.id,
                        role: Role::Assistant,
                        model: self.model,
                        usage: usage_of(chunk.usage),
                    },
                ]
            };
            if chunk.choices.len() > 0 {
                start + (DecoderView { started: true, ..self }).choice_events(
                    chunk.choices[0],
                    chunk.usage,
                )
            } else {
                start
            }
        }
    }

    /// The decoder after the end marker: what follows is ignored.
    pub open spec fn ended(self) -> DecoderView {
        DecoderView { finished: true, ..self }
    }

    /// The decoder after the stream has ended.
    pub open spec fn after_end(self) -> DecoderView {
        DecoderView { open: None, finished: true, ..self }
    }

    /// The events for the end of the stream: a block that is still open
    /// closes, and the reply ends.
    pub open spec fn end_events(self) -> Seq<StreamEventView> {
        self.closing() + seq![StreamEventView::MessageStop]
    }

    /// The decoder after a run of frames.
    pub open spec fn after_chunks(self, chunks: Seq<ChunkView>) -> DecoderView
        decreases chunks.len(),
    {
        if chunks.len() == 0 {
            self
        } else {
            self.after_chunks(chunks.drop_last()).after_chunk(chunks.last())
        }
    }

    /// The events for a run of frames.
    pub open spec fn chunks_events(self, chunks: Seq<ChunkView>) -> Seq<StreamEventView>
        decreases chunks.len(),
    {
        if chunks.len() == 0 {
            Seq::empty()
        } else {
            self.chunks_events(chunks.drop_last()) + self.after_chunks(
                chunks.drop_last(),
            ).chunk_events(chunks.last())
        }
    }
}

/// The events of a whole streamed reply for the model `model`: those of its
/// frames in order, then those of the end of the stream.
pub open spec fn decoded(model: Seq<char>, chunks: Seq<ChunkView>) -> Seq<StreamEventView> {
    let start = DecoderView::initial(model);
    start.chunks_events(chunks) + start.after_chunks(chunks).end_events()
}

/// Records a fragment with what is known of its tool call.
pub fn record_fragment(calls: &mut HashMap<u32, CallProgress>, fragment: &OpenAiToolCallDelta) -> (r:
    (String, String))
    ensures
        call_views(final(calls)@) == calls_after(call_views(old(calls)@), fragment.deep_view()),
        r.0@ == call_known(call_views(old(calls)@), fragment.index).with_fragment(
            fragment.deep_view(),
        ).id,
        r.1@ == call_known(call_views(old(calls)@), fragment.index).with_fragment(
            fragment.deep_view(),
        ).name,
{
    let ghost before = calls@;
    let mut call = match calls.remove(&fragment.index) {
        Some(known) => known,
        None => CallProgress {
            index: fragment.index,
            id: String::new(),
            name: String::new(),
            arguments: String::new(),
        },
    };
    assert(call.deep_view() == call_known(call_views(before), fragment.index));
    match &fragment.id {
        Some(id) => {
            call.id = id.clone();
        },
        None => {},
    }
    match &fragment.function {
        Some(function) => {
            match &function.name {
                Some(name) => {
                    call.name = name.clone();
                },
                None => {},
            }
            match &function.arguments {
                Some(arguments) => {
                    call.arguments.append(arguments.as_str());
                },
                None => {},
            }
        },
        None => {},
    }
    let id = call.id.clone();
    let name = call.name.clone();
    let ghost updated = call.deep_view();
    assert(updated == call_known(call_views(before), fragment.index).with_fragment(
        fragment.deep_view(),
    ));
    calls.insert(fragment.index, call);
    proof {
        assert(call_views(calls@) =~= call_views(before).insert(fragment.index, updated));
    }
    (id, name)
}

/// The decoder of one streamed reply.
#[derive(Debug)]
pub struct StreamDecoder {
    model: String,
    started: bool,
    next_index: usize,
    open: Option<OpenBlock>,
    calls: HashMap<u32, CallProgress>,
    finished: bool,
}

impl DeepView for StreamDecoder {
    type V = DecoderView;

    closed spec fn deep_view(&self) -> DecoderView {
        DecoderView {
            model: self.model@,
            started: self.started,
            next_index: self.next_index,
            open: self.open,
            calls: call_views(self.calls@),
            finished: self.finished,
        }
    }
}

impl StreamDecoder {
    /// A decoder for a reply of the model `model`.
    pub fn new(model: &str) -> (r: StreamDecoder)
        ensures
            r.deep_view() == DecoderView::initial(model@),
    {
        let r = StreamDecoder {
            model: model.to_string(),
            started: false,
            next_index: 0,
            open: None,
            calls: HashMap::new(),
            finished: false,
        };
        proof {
            assert(call_views(r.calls@) =~= Map::empty());
        }
        r
    }

    /// Whether the reply has stopped: what follows in the stream is ignored.
    pub fn is_finished(&self) -> (r: bool)
        ensures
            r == self.deep_view().finished,
    {
        self.finished
    }

    /// The arguments received so far of the tool call with the vendor's index
    /// `index`, as raw text.
    pub fn arguments_of(&self, index: u32) -> (r: String)
        ensures
            r@ == call_known(self.deep_view().calls, index).arguments,
    {
        match self.calls.get(&index) {
            Some(call) => call.arguments.clone(),
            None => String::new(),
        }
    }

    /// Says what one line of the stream asks for. Once the reply has stopped,
    /// every line is skipped.
    pub fn accept_line(&self, line: &str) -> (r: LineAction)
        ensures
            r.deep_view() == if self.deep_view().finished {
                LineActionView::Skip
            } else {
                line_action(line@)
            },
    {
        if self.finished {
            LineAction::Skip
        } else {
            classify_line(line)
        }
    }

    fn close_open(&mut self, events: &mut Vec<StreamEvent>)
        ensures
            final(self).deep_view() == (DecoderView { open: None, ..old(self).deep_view() }),
            final(events).deep_view() == old(events).deep_view() + old(self).deep_view().closing(),
    {
        let ghost before = *events;
        match self.open {
            Some(block) => {
                events.push(StreamEvent::block_stop(block.index));
                proof {
                    lemma_deep_view_push(before, *events, events[events.len() - 1]);
                    assert(events.deep_view() =~= before.deep_view() + old(self).deep_view().closing());
                }
            },
            None => {
                proof {
                    assert(events.deep_view() =~= before.deep_view() + old(self).deep_view().closing());
                }
            },
        }
        self.open = None;
    }

    fn open_block(&mut self, tool: Option<u32>) -> (index: usize)
        ensures
            final(self).deep_view() == old(self).deep_view().opened(tool),
            index == old(self).deep_view().next_index,
    {
        let index = self.next_index;
        self.open = Some(OpenBlock { index, tool });
        if self.next_index < usize::MAX {
            self.next_index = self.next_index + 1;
        }
        index
    }

    fn accept_text(&mut self, text: &str, events: &mut Vec<StreamEvent>)
        ensures
            final(self).deep_view() == old(self).deep_view().after_text(text@),
            final(events).deep_view() == old(events).deep_view() + old(self).deep_view().text_events(
                text@,
            ),
    {
        let ghost before = *events;
        let ghost s = self.deep_view();
        if text.is_empty() {
            proof {
                assert(events.deep_view() =~= before.deep_view() + s.text_events(text@));
            }
            return ;
        }
        let text_block = match self.open {
            Some(block) => if block.tool.is_none() {
                Some(block.index)
            } else {
                None
            },
            None => None,
        };
        match text_block {
            Some(index) => {
                events.push(StreamEvent::text_delta(index, text.to_string()));
                proof {
                    lemma_deep_view_push(before, *events, events[events.len() - 1]);
                    assert(events.deep_view() =~= before.deep_view() + s.text_events(text@));
                }
            },
            None => {
                self.close_open(events);
                let index = self.open_block(None);
                let ghost closed = *events;
                events.push(StreamEvent::text_start(index));
                let ghost started = *events;
                events.push(StreamEvent::text_delta(index, text.to_string()));
                proof {
                    lemma_deep_view_push(closed, started, started[started.len() - 1]);
                    lemma_deep_view_push(started, *events, events[events.len() - 1]);
                    assert(events.deep_view() =~= before.deep_view() + s.text_events(text@));
                }
            },
        }
    }

    fn accept_fragment(&mut self, fragment: &OpenAiToolCallDelta, events: &mut Vec<StreamEvent>)
        ensures
            final(self).deep_view() == old(self).deep_view().after_fragment(fragment.deep_view()),
            final(events).deep_view() == old(events).deep_view() + old(
                self,
            ).deep_view().fragment_events(fragment.deep_view()),
    {
        let ghost before = *events;
        let ghost s = self.deep_view();
        let (id, name) = record_fragment(&mut self.calls, fragment);
        let has_name = match &fragment.function {
            Some(f) => f.name.is_some(),
            None => false,
        };
        let has_arguments = match &fragment.function {
            Some(f) => f.arguments.is_some(),
            None => false,
        };
        let tool_open = match self.open {
            Some(block) => match block.tool {
                Some(t) => t == fragment.index,
                None => false,
            },
            None => false,
        };
        assert(tool_open == s.tool_open(fragment.index));
        assert((has_name || has_arguments) == fragment_has_content(fragment.deep_view()));
        if (has_name || has_arguments) && !tool_open {
            self.close_open(events);
            let index = self.open_block(Some(fragment.index));
            let ghost closed = *events;
            events.push(StreamEvent::tool_use_start(index, id, name));
            proof {
                lemma_deep_view_push(closed, *events, events[events.len() - 1]);
            }
        }
        let ghost middle = *events;
        match &fragment.function {
            Some(f) => match &f.arguments {
                Some(arguments) => {
                    assert(self.open is Some);
                    let index = match self.open {
                        Some(block) => block.index,
                        None => 0,
                    };
                    events.push(StreamEvent::input_json_delta(index, arguments.clone()));
                    proof {
                        lemma_deep_view_push(middle, *events, events[events.len() - 1]);
                    }
                },
                None => {},
            },
            None => {},
        }
        proof {
            assert(events.deep_view() =~= before.deep_view() + s.fragment_events(
                fragment.deep_view(),
            ));
        }
    }

    fn accept_finish(
        &mut self,
        code: &str,
        usage: &Option<OpenAiUsage>,
        events: &mut Vec<StreamEvent>,
    )
        ensures
            final(self).deep_view() == old(self).deep_view().after_finish(),
            final(events).deep_view() == old(events).deep_view() + old(
                self,
            ).deep_view().finish_events(code@, *usage),
    {
        let ghost before = *events;
        let ghost s = self.deep_view();
        self.close_open(events);
        let output_tokens = match usage {
            Some(u) => u.completion_tokens,
            None => 0,
        };
        let ghost closed = *events;
        events.push(StreamEvent::message_delta(Some(map_finish_reason(code)), output_tokens));
        self.finished = true;
        proof {
            lemma_deep_view_push(closed, *events, events[events.len() - 1]);
            assert(events.deep_view() =~= before.deep_view() + s.finish_events(code@, *usage));
        }
    }

    fn accept_choice(
        &mut self,
        choice: &OpenAiStreamChoice,
        usage: &Option<OpenAiUsage>,
        events: &mut Vec<StreamEvent>,
    )
        ensures
            final(self).deep_view() == old(self).deep_view().after_choice(choice.deep_view()),
            final(events).deep_view() == old(events).deep_view() + old(
                self,
            ).deep_view().choice_events(choice.deep_view(), *usage),
    {
        let ghost before = *events;
        let ghost s = self.deep_view();
        match &choice.delta.content {
            Some(text) => {
                self.accept_text(text.as_str(), events);
            },
            None => {
                proof {
                    assert(events.deep_view() =~= before.deep_view() + Seq::<StreamEventView>::empty());
                }
            },
        }
        let ghost s1 = self.deep_view();
        let ghost after_text = *events;
        match &choice.delta.tool_calls {
            Some(fragments) => {
                let mut k: usize = 0;
                proof {
                    assert(after_text.deep_view() + s1.fragments_events(
                        fragments.deep_view().take(0),
                    ) =~= after_text.deep_view());
                }
                while k < fragments.len()
                    invariant
                        0 <= k <= fragments.len(),
                        self.deep_view() == s1.after_fragments(fragments.deep_view().take(k as int)),
                        events.deep_view() == after_text.deep_view() + s1.fragments_events(
                            fragments.deep_view().take(k as int),
                        ),
                    decreases fragments.len() - k,
                {
                    proof {
                        let next = fragments.deep_view().take(k + 1);
                        assert(next.drop_last() =~= fragments.deep_view().take(k as int));
                        assert(next.last() == fragments[k as int].deep_view());
                    }
                    self.accept_fragment(&fragments[k], events);
                    proof {
                        assert(events.deep_view() =~= after_text.deep_view() + s1.fragments_events(
                            fragments.deep_view().take(k + 1),
                        ));
                    }
                    k += 1;
                }
                proof {
                    assert(fragments.deep_view().take(fragments.len() as int)
                        =~= fragments.deep_view());
                }
            },
            None => {},
        }
        proof {
            assert(self.deep_view() == s.after_delta(choice.deep_view()));
            assert(events.deep_view() =~= before.deep_view() + s.delta_events(choice.deep_view()));
        }
        match &choice.finish_reason {
            Some(code) => {
                self.accept_finish(code.as_str(), usage, events);
                proof {
                    assert(events.deep_view() =~= before.deep_view() + s.choice_events(
                        choice.deep_view(),
                        *usage,
                    ));
                }
            },
            None => {},
        }
    }

    /// Takes the end marker: what follows in the stream is ignored.
    pub fn end(&mut self)
        ensures
            final(self).deep_view() == old(self).deep_view().ended(),
    {
        self.finished = true;
    }

    /// Takes one parsed frame and gives its events.
    pub fn accept_chunk(&mut self, chunk: &OpenAiStreamChunk) -> (events: Vec<StreamEvent>)
        ensures
            final(self).deep_view() == old(self).deep_view().after_chunk(chunk.deep_view()),
            events.deep_view() == old(self).deep_view().chunk_events(chunk.deep_view()),
    {
        let mut events: Vec<StreamEvent> = Vec::new();
        let ghost s = self.deep_view();
        proof {
            assert(events.deep_view() =~= Seq::empty());
        }
        if self.finished {
            return events;
        }
        if !self.started {
            let ghost before = events;
            events.push(
                StreamEvent::message_start(
                    chunk.id.clone(),
                    self.model.clone(),
                    convert_usage(&chunk.usage),
                ),
            );
            proof {
                lemma_deep_view_push(before, events, events[0]);
            }
        }
        self.started = true;
        if chunk.choices.len() > 0 {
            self.accept_choice(&chunk.choices[0], &chunk.usage, &mut events);
        }
        proof {
            assert(events.deep_view() =~= s.chunk_events(chunk.deep_view()));
        }
        events
    }

    /// Ends the stream and gives the closing events.
    pub fn finish(&mut self) -> (events: Vec<StreamEvent>)
        ensures
            final(self).deep_view() == old(self).deep_view().after_end(),
            events.deep_view() == old(self).deep_view().end_events(),
    {
        let mut events: Vec<StreamEvent> = Vec::new();
        let ghost s = self.deep_view();
        proof {
            assert(events.deep_view() =~= Seq::empty());
        }
        self.close_open(&mut events);
        let ghost closed = events;
        events.push(StreamEvent::MessageStop);
        self.finished = true;
        proof {
            lemma_deep_view_push(closed, events, events[events.len() - 1]);
            assert(events.deep_view() =~= s.end_events());
        }
        events
    }
}

/// Decodes a whole streamed reply from its parsed frames.
pub fn decode_chunks(model: &str, chunks: &Vec<OpenAiStreamChunk>) -> (events: Vec<StreamEvent>)
    ensures
        events.deep_view() == decoded(model@, chunks.deep_view()),
{
    let mut decoder = StreamDecoder::new(model);
    let mut events: Vec<StreamEvent> = Vec::new();
    let ghost start = decoder.deep_view();
    let mut i: usize = 0;
    proof {
        assert(events.deep_view() =~= Seq::empty());
    }
    while i < chunks.len()
        invariant
            0 <= i <= chunks.len(),
            start == DecoderView::initial(model@),
            decoder.deep_view() == start.after_chunks(chunks.deep_view().take(i as int)),
            events.deep_view() == start.chunks_events(chunks.deep_view().take(i as int)),
        decreases chunks.len() - i,
    {
        proof {
            let next = chunks.deep_view().take(i + 1);
            assert(next.drop_last() =~= chunks.deep_view().take(i as int));
            assert(next.last() == chunks[i as int].deep_view());
        }
        let mut more = decoder.accept_chunk(&chunks[i]);
        let ghost before = events;
        let ghost added = more;
        events.append(&mut more);
        proof {
            crate::llm::types::lemma_deep_view_add(before, added, events);
        }
        i += 1;
    }
    proof {
        assert(chunks.deep_view().take(chunks.len() as int) =~= chunks.deep_view());
    }
    let mut last = decoder.finish();
    let ghost before = events;
    let ghost added = last;
    events.append(&mut last);
    proof {
        crate::llm::types::lemma_deep_view_add(before, added, events);
    }
    events
}

} // verus!

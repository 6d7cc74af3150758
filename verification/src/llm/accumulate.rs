//! Building a reply from the events of its stream.
//!
//! Text and the arguments of a tool call arrive in pieces. The pieces of a
//! block are collected as raw text while the block is open. Only when the
//! block closes does it become content; the arguments of a tool call are
//! parsed then, and not before.

use vstd::prelude::*;
use vstd::string::StringExecFns;
use crate::json::{parse_or_empty, parsed_or_empty};
use crate::llm::types::{
    clone_blocks, lemma_deep_view_push, BlockStartView, ContentBlock, ContentBlockStart,
    ContentBlockView, ContentDelta, DeltaView, MessageResponse, MessageResponseView, Role,
    StopReason, StreamEvent, StreamEventView, Usage,
};

verus! {

/// A block that is open: what has arrived of it so far.
#[derive(Debug)]
pub enum PartialBlock {
    Text { index: usize, text: String },
    ToolUse { index: usize, id: String, name: String, input: serde_json::Value, partial_json: String },
}

/// The model of a [`PartialBlock`].
pub ghost enum PartialView {
    Text { index: nat, text: Seq<char> },
    ToolUse {
        index: nat,
        id: Seq<char>,
        name: Seq<char>,
        input: serde_json::Value,
        partial_json: Seq<char>,
    },
}

impl DeepView for PartialBlock {
    type V = PartialView;

    open spec fn deep_view(&self) -> PartialView {
        match self {
            PartialBlock::Text { index, text } => PartialView::Text {
                index: *index as nat,
                text: text@,
            },
            PartialBlock::ToolUse { index, id, name, input, partial_json } => PartialView::ToolUse {
                index: *index as nat,
                id: id@,
                name: name@,
                input: *input,
                partial_json: partial_json@,
            },
        }
    }
}

impl PartialView {
    /// The index of the block.
    pub open spec fn index(self) -> nat {
        match self {
            PartialView::Text { index, .. } => index,
            PartialView::ToolUse { index, .. } => index,
        }
    }

    /// The block as it opens.
    pub open spec fn opening(index: nat, block: BlockStartView) -> PartialView {
        match block {
            BlockStartView::Text { text } => PartialView::Text { index, text },
            BlockStartView::ToolUse { id, name, input } => PartialView::ToolUse {
                index,
                id,
                name,
                input,
                partial_json: Seq::empty(),
            },
        }
    }

    /// The block after a piece of content. Text goes to a text block and
    /// argument text to a tool call; a piece of the other kind changes
    /// nothing.
    pub open spec fn grown(self, delta: DeltaView) -> PartialView {
        match (self, delta) {
            (PartialView::Text { index, text }, DeltaView::Text { text: more }) => PartialView::Text {
                index,
                text: text + more,
            },
            (
                PartialView::ToolUse { index, id, name, input, partial_json },
                DeltaView::InputJson { partial_json: more },
            ) => PartialView::ToolUse { index, id, name, input, partial_json: partial_json + more },
            _ => self,
        }
    }

    /// The content that the block becomes when it closes. The arguments of a
    /// tool call are parsed from all the text that arrived; where none
    /// arrived, the input that the block opened with stays.
    pub open spec fn closed(self) -> ContentBlockView {
        match self {
            PartialView::Text { text, .. } => ContentBlockView::Text { text },
            PartialView::ToolUse { id, name, input, partial_json, .. } => ContentBlockView::ToolUse {
                id,
                name,
                input: if partial_json.len() == 0 {
                    input
                } else {
                    parsed_or_empty(partial_json)
                },
            },
        }
    }
}

/// The model of a [`ResponseAccumulator`].
pub ghost struct AccumulatorView {
    pub id: Seq<char>,
    pub model: Seq<char>,
    pub usage: Usage,
    pub stop_reason: Option<StopReason>,
    /// The blocks that have closed, in order.
    pub blocks: Seq<ContentBlockView>,
    /// The block that is open, if any.
    pub open: Option<PartialView>,
    /// Whether the reply has ended.
    pub stopped: bool,
}

impl AccumulatorView {
    /// The accumulator before the first event.
    pub open spec fn initial() -> AccumulatorView {
        AccumulatorView {
            id: Seq::empty(),
            model: Seq::empty(),
            usage: Usage::of(0, 0),
            stop_reason: None,
            blocks: Seq::empty(),
            open: None,
            stopped: false,
        }
    }

    /// The accumulator after one event.
    pub open spec fn applied(self, event: StreamEventView) -> AccumulatorView {
        match event {
            StreamEventView::MessageStart { id, model, usage, .. } => AccumulatorView {
                id,
                model,
                usage,
                ..self
            },
            StreamEventView::ContentBlockStart { index, block } => AccumulatorView {
                open: Some(PartialView::opening(index, block)),
                ..self
            },
            StreamEventView::ContentBlockDelta { index, delta } => match self.open {
                Some(partial) => if partial.index() == index {
                    AccumulatorView { open: Some(partial.grown(delta)), ..self }
                } else {
                    self
                },
                None => self,
            },
            StreamEventView::ContentBlockStop { index } => match self.open {
                Some(partial) => if partial.index() == index {
                    AccumulatorView {
                        blocks: self.blocks.push(partial.closed()),
                        open: None,
                        ..self
                    }
                } else {
                    self
                },
                None => self,
            },
            StreamEventView::MessageDelta { stop_reason, output_tokens } => AccumulatorView {
                stop_reason,
                usage: Usage { output_tokens, ..self.usage },
                ..self
            },
            StreamEventView::MessageStop => AccumulatorView { stopped: true, ..self },
        }
    }

    /// The accumulator after a run of events.
    pub open spec fn applied_all(self, events: Seq<StreamEventView>) -> AccumulatorView
        decreases events.len(),
    {
        if events.len() == 0 {
            self
        } else {
            self.applied_all(events.drop_last()).applied(events.last())
        }
    }

    /// The reply collected so far: the blocks that have closed. A block that
    /// is still open is no part of it.
    pub open spec fn response(self) -> MessageResponseView {
        MessageResponseView {
            id: self.id,
            role: Role::Assistant,
            content: self.blocks,
            model: self.model,
            stop_reason: self.stop_reason,
            usage: self.usage,
        }
    }
}

/// The events that feed the pieces `fragments` to the tool call at `index`.
pub open spec fn argument_deltas(index: nat, fragments: Seq<Seq<char>>) -> Seq<StreamEventView> {
    fragments.map_values(
        |f: Seq<char>|
            StreamEventView::ContentBlockDelta {
                index,
                delta: DeltaView::InputJson { partial_json: f },
            },
    )
}

/// The pieces one after the other.
pub open spec fn concatenated(fragments: Seq<Seq<char>>) -> Seq<char>
    decreases fragments.len(),
{
    if fragments.len() == 0 {
        Seq::empty()
    } else {
        concatenated(fragments.drop_last()) + fragments.last()
    }
}

/// Collects the events of one streamed reply.
#[derive(Debug)]
pub struct ResponseAccumulator {
    id: String,
    model: String,
    usage: Usage,
    stop_reason: Option<StopReason>,
    blocks: Vec<ContentBlock>,
    open: Option<PartialBlock>,
    stopped: bool,
}

impl DeepView for ResponseAccumulator {
    type V = AccumulatorView;

    closed spec fn deep_view(&self) -> AccumulatorView {
        AccumulatorView {
            id: self.id@,
            model: self.model@,
            usage: self.usage,
            stop_reason: self.stop_reason,
            blocks: self.blocks.deep_view(),
            open: self.open.deep_view(),
            stopped: self.stopped,
        }
    }
}

impl ResponseAccumulator {
    /// An accumulator that has seen no event.
    pub fn new() -> (r: ResponseAccumulator)
        ensures
            r.deep_view() == AccumulatorView::initial(),
    {
        let r = ResponseAccumulator {
            id: String::new(),
            model: String::new(),
            usage: Usage::new(0, 0),
            stop_reason: None,
            blocks: Vec::new(),
            open: None,
            stopped: false,
        };
        proof {
            assert(r.blocks.deep_view() =~= Seq::empty());
        }
        r
    }

    /// Whether the reply has ended.
    pub fn is_stopped(&self) -> (r: bool)
        ensures
            r == self.deep_view().stopped,
    {
        self.stopped
    }

    /// Takes one event of the stream.
    pub fn apply(&mut self, event: &StreamEvent)
        ensures
            final(self).deep_view() == old(self).deep_view().applied(event.deep_view()),
    {
        match event {
            StreamEvent::MessageStart(e) => {
                self.id = e.message.id.clone();
                self.model = e.message.model.clone();
                self.usage = e.message.usage;
            },
            StreamEvent::ContentBlockStart(e) => {
                let partial = match &e.content_block {
                    ContentBlockStart::Text { text } => PartialBlock::Text {
                        index: e.index,
                        text: text.clone(),
                    },
                    ContentBlockStart::ToolUse { id, name, input } => PartialBlock::ToolUse {
                        index: e.index,
                        id: id.clone(),
                        name: name.clone(),
                        input: input.clone(),
                        partial_json: String::new(),
                    },
                };
                self.open = Some(partial);
            },
            StreamEvent::ContentBlockDelta(e) => {
                let current = self.open.take();
                match current {
                    Some(PartialBlock::Text { index, text }) => {
                        let mut text = text;
                        if index == e.index {
                            match &e.delta {
                                ContentDelta::TextDelta { text: more } => {
                                    text.append(more.as_str());
                                },
                                ContentDelta::InputJsonDelta { .. } => {},
                            }
                        }
                        self.open = Some(PartialBlock::Text { index, text });
                    },
                    Some(PartialBlock::ToolUse { index, id, name, input, partial_json }) => {
                        let mut partial_json = partial_json;
                        if index == e.index {
                            match &e.delta {
                                ContentDelta::InputJsonDelta { partial_json: more } => {
                                    partial_json.append(more.as_str());
                                },
                                ContentDelta::TextDelta { .. } => {},
                            }
                        }
                        self.open = Some(PartialBlock::ToolUse { index, id, name, input, partial_json });
                    },
                    None => {},
                }
            },
            StreamEvent::ContentBlockStop(e) => {
                let current = self.open.take();
                match current {
                    Some(PartialBlock::Text { index, text }) => {
                        if index == e.index {
                            let ghost before = self.blocks;
                            self.blocks.push(ContentBlock::Text { text });
                            proof {
                                lemma_deep_view_push(
                                    before,
                                    self.blocks,
                                    self.blocks[self.blocks.len() - 1],
                                );
                            }
                        } else {
                            self.open = Some(PartialBlock::Text { index, text });
                        }
                    },
                    Some(PartialBlock::ToolUse { index, id, name, input, partial_json }) => {
                        if index == e.index {
                            let parsed = if partial_json.as_str().is_empty() {
                                input
                            } else {
                                parse_or_empty(partial_json.as_str())
                            };
                            let ghost before = self.blocks;
                            self.blocks.push(ContentBlock::ToolUse { id, name, input: parsed });
                            proof {
                                lemma_deep_view_push(
                                    before,
                                    self.blocks,
                                    self.blocks[self.blocks.len() - 1],
                                );
                            }
                        } else {
                            self.open = Some(
                                PartialBlock::ToolUse { index, id, name, input, partial_json },
                            );
                        }
                    },
                    None => {},
                }
            },
            StreamEvent::MessageDelta(e) => {
                self.stop_reason = e.delta.stop_reason;
                self.usage.output_tokens = e.usage.output_tokens;
            },
            StreamEvent::MessageStop => {
                self.stopped = true;
            },
        }
    }

    /// The reply collected so far.
    pub fn response(&self) -> (r: MessageResponse)
        ensures
            r.deep_view() == self.deep_view().response(),
    {
        MessageResponse {
            id: self.id.clone(),
            role: Role::Assistant,
            content: clone_blocks(&self.blocks),
            model: self.model.clone(),
            stop_reason: self.stop_reason,
            usage: self.usage,
        }
    }
}

/// Collects a whole run of events into a reply.
pub fn collect_response(events: &Vec<StreamEvent>) -> (r: MessageResponse)
    ensures
        r.deep_view() == AccumulatorView::initial().applied_all(events.deep_view()).response(),
{
    let mut acc = ResponseAccumulator::new();
    let mut i: usize = 0;
    while i < events.len()
        invariant
            0 <= i <= events.len(),
            acc.deep_view() == AccumulatorView::initial().applied_all(
                events.deep_view().take(i as int),
            ),
        decreases events.len() - i,
    {
        proof {
            let next = events.deep_view().take(i + 1);
            assert(next.drop_last() =~= events.deep_view().take(i as int));
            assert(next.last() == events[i as int].deep_view());
        }
        acc.apply(&events[i]);
        i += 1;
    }
    proof {
        assert(events.deep_view().take(events.len() as int) =~= events.deep_view());
    }
    acc.response()
}

/// While a tool call is open, the pieces of its arguments are only
/// collected: the content of the reply stays as it was, and the call holds
/// the pieces one after the other as raw text.
pub proof fn lemma_arguments_collected(
    state: AccumulatorView,
    index: nat,
    id: Seq<char>,
    name: Seq<char>,
    input: serde_json::Value,
    fragments: Seq<Seq<char>>,
)
    ensures
        state.applied(
            StreamEventView::ContentBlockStart {
                index,
                block: BlockStartView::ToolUse { id, name, input },
            },
        ).applied_all(argument_deltas(index, fragments)) == (AccumulatorView {
            open: Some(
                PartialView::ToolUse { index, id, name, input, partial_json: concatenated(fragments) },
            ),
            ..state
        }),
    decreases fragments.len(),
{
    let opened = state.applied(
        StreamEventView::ContentBlockStart { index, block: BlockStartView::ToolUse { id, name, input } },
    );
    if fragments.len() > 0 {
        lemma_arguments_collected(state, index, id, name, input, fragments.drop_last());
        assert(argument_deltas(index, fragments).drop_last() =~= argument_deltas(
            index,
            fragments.drop_last(),
        ));
    }
}

/// The arguments of a tool call are parsed when its block closes, from all
/// the pieces together: the reply then gains one tool-use block, whose input
/// is what the concatenated text parses to.
pub proof fn lemma_arguments_parsed_at_stop(
    state: AccumulatorView,
    index: nat,
    id: Seq<char>,
    name: Seq<char>,
    input: serde_json::Value,
    fragments: Seq<Seq<char>>,
)
    requires
        concatenated(fragments).len() > 0,
    ensures
        state.applied(
            StreamEventView::ContentBlockStart {
                index,
                block: BlockStartView::ToolUse { id, name, input },
            },
        ).applied_all(argument_deltas(index, fragments)).applied(
            StreamEventView::ContentBlockStop { index },
        ) == (AccumulatorView {
            blocks: state.blocks.push(
                ContentBlockView::ToolUse {
                    id,
                    name,
                    input: parsed_or_empty(concatenated(fragments)),
                },
            ),
            open: None,
            ..state
        }),
{
    lemma_arguments_collected(state, index, id, name, input, fragments);
}

} // verus!

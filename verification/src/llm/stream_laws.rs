//! What holds of every run of events that the decoder gives: blocks open and
//! close one at a time, and content goes only to the block that is open and
//! is of its kind.

use vstd::prelude::*;
use crate::llm::openai_stream::{decoded, ChoiceView, ChunkView, DecoderView, FragmentView, OpenBlock};
use crate::llm::openai_wire::{after_line, after_lines, decoded_lines, line_events, lines_events};
use crate::llm::types::{BlockStartView, DeltaView, StreamEventView};

verus! {

/// The block that is open, as the events show it: its index, and whether it
/// is a tool call.
pub ghost struct Bracket {
    pub index: nat,
    pub tool: bool,
}

/// The block that a decoder holds open.
pub open spec fn bracket_of(state: DecoderView) -> Option<Bracket> {
    match state.open {
        Some(block) => Some(Bracket { index: block.index as nat, tool: block.tool is Some }),
        None => None,
    }
}

/// The open block after one event, or `None` where the event breaks the
/// order: a block opens only while none is open; content arrives only for the
/// open block and is of its kind; only the open block closes.
pub open spec fn after_event(open: Option<Bracket>, event: StreamEventView) -> Option<Option<Bracket>> {
    match event {
        StreamEventView::ContentBlockStart { index, block } => if open is None {
            Some(Some(Bracket { index, tool: block is ToolUse }))
        } else {
            None
        },
        StreamEventView::ContentBlockDelta { index, delta } => if open == Some(
            Bracket { index, tool: delta is InputJson },
        ) {
            Some(open)
        } else {
            None
        },
        StreamEventView::ContentBlockStop { index } => if open is Some && open->0.index == index {
            Some(None)
        } else {
            None
        },
        _ => Some(open),
    }
}

/// The open block after a run of events, or `None` where the run breaks the
/// order.
pub open spec fn after_events(open: Option<Bracket>, events: Seq<StreamEventView>) -> Option<
    Option<Bracket>,
>
    decreases events.len(),
{
    if events.len() == 0 {
        Some(open)
    } else {
        match after_events(open, events.drop_last()) {
            Some(o) => after_event(o, events.last()),
            None => None,
        }
    }
}

/// A run and then another: the second goes on where the first ends.
pub proof fn lemma_after_events_add(
    open: Option<Bracket>,
    first: Seq<StreamEventView>,
    second: Seq<StreamEventView>,
)
    ensures
        after_events(open, first + second) == match after_events(open, first) {
            Some(o) => after_events(o, second),
            None => None,
        },
    decreases second.len(),
{
    if second.len() == 0 {
        assert(first + second =~= first);
    } else {
        assert((first + second).drop_last() =~= first + second.drop_last());
        assert((first + second).last() == second.last());
        lemma_after_events_add(open, first, second.drop_last());
    }
}

/// One event as a run.
pub proof fn lemma_after_one(open: Option<Bracket>, event: StreamEventView)
    ensures
        after_events(open, seq![event]) == after_event(open, event),
{
    let one = seq![event];
    assert(one.drop_last() =~= Seq::<StreamEventView>::empty());
    assert(after_events(open, one.drop_last()) == Some(open));
    assert(one.last() == event);
}

/// Two events as a run.
pub proof fn lemma_after_two(open: Option<Bracket>, a: StreamEventView, b: StreamEventView)
    ensures
        after_events(open, seq![a, b]) == match after_event(open, a) {
            Some(o) => after_event(o, b),
            None => None,
        },
{
    assert(seq![a, b] =~= seq![a] + seq![b]);
    lemma_after_events_add(open, seq![a], seq![b]);
    lemma_after_one(open, a);
    if after_event(open, a) is Some {
        lemma_after_one(after_event(open, a)->0, b);
    }
}

/// Closing leaves no block open.
pub proof fn lemma_closing(state: DecoderView)
    ensures
        after_events(bracket_of(state), state.closing()) == Some(None::<Bracket>),
{
    match state.open {
        Some(block) => {
            lemma_after_one(
                bracket_of(state),
                StreamEventView::ContentBlockStop { index: block.index as nat },
            );
        },
        None => {},
    }
}

/// The events of a piece of text keep the order.
pub proof fn lemma_text_events(state: DecoderView, text: Seq<char>)
    ensures
        after_events(bracket_of(state), state.text_events(text)) == Some(
            bracket_of(state.after_text(text)),
        ),
{
    if text.len() == 0 {
    } else if state.text_open() {
        lemma_after_one(bracket_of(state), state.text_events(text)[0]);
    } else {
        lemma_closing(state);
        let opening = seq![
            StreamEventView::ContentBlockStart {
                index: state.next_index as nat,
                block: BlockStartView::Text { text: Seq::empty() },
            },
            StreamEventView::ContentBlockDelta {
                index: state.next_index as nat,
                delta: DeltaView::Text { text },
            },
        ];
        lemma_after_events_add(bracket_of(state), state.closing(), opening);
        lemma_after_two(None, opening[0], opening[1]);
    }
}

/// The events of a fragment of a tool call keep the order.
pub proof fn lemma_fragment_events(state: DecoderView, fragment: FragmentView)
    ensures
        after_events(bracket_of(state), state.fragment_events(fragment)) == Some(
            bracket_of(state.after_fragment(fragment)),
        ),
{
    let after = state.after_fragment(fragment);
    let start = if state.fragment_opens(fragment) {
        state.closing() + seq![state.fragment_events(fragment)[state.closing().len() as int]]
    } else {
        Seq::empty()
    };
    if state.fragment_opens(fragment) {
        lemma_closing(state);
        let opening = state.fragment_events(fragment)[state.closing().len() as int];
        assert(opening is ContentBlockStart);
        lemma_after_events_add(bracket_of(state), state.closing(), seq![opening]);
        lemma_after_one(None, opening);
        assert(after_events(bracket_of(state), start) == Some(bracket_of(after)));
    } else {
        assert(bracket_of(after) == bracket_of(state));
    }
    match fragment.arguments {
        Some(arguments) => {
            let delta = StreamEventView::ContentBlockDelta {
                index: after.open->0.index as nat,
                delta: DeltaView::InputJson { partial_json: arguments },
            };
            assert(state.fragment_events(fragment) =~= start + seq![delta]);
            lemma_after_events_add(bracket_of(state), start, seq![delta]);
            lemma_after_one(bracket_of(after), delta);
        },
        None => {
            assert(state.fragment_events(fragment) =~= start);
        },
    }
}

/// The events of the fragments of a frame keep the order.
pub proof fn lemma_fragments_events(state: DecoderView, fragments: Seq<FragmentView>)
    ensures
        after_events(bracket_of(state), state.fragments_events(fragments)) == Some(
            bracket_of(state.after_fragments(fragments)),
        ),
    decreases fragments.len(),
{
    if fragments.len() > 0 {
        let before = state.after_fragments(fragments.drop_last());
        lemma_fragments_events(state, fragments.drop_last());
        lemma_fragment_events(before, fragments.last());
        lemma_after_events_add(
            bracket_of(state),
            state.fragments_events(fragments.drop_last()),
            before.fragment_events(fragments.last()),
        );
    }
}

/// The events of a choice keep the order.
pub proof fn lemma_choice_events(
    state: DecoderView,
    choice: ChoiceView,
    usage: Option<crate::llm::openai::OpenAiUsage>,
)
    ensures
        after_events(bracket_of(state), state.choice_events(choice, usage)) == Some(
            bracket_of(state.after_choice(choice)),
        ),
{
    let text = match choice.content {
        Some(t) => state.text_events(t),
        None => Seq::empty(),
    };
    let s1 = state.after_content(choice.content);
    match choice.content {
        Some(t) => {
            lemma_text_events(state, t);
        },
        None => {},
    }
    assert(after_events(bracket_of(state), text) == Some(bracket_of(s1)));
    match choice.tool_calls {
        Some(fragments) => {
            lemma_fragments_events(s1, fragments);
            lemma_after_events_add(bracket_of(state), text, s1.fragments_events(fragments));
        },
        None => {},
    }
    let s2 = state.after_delta(choice);
    assert(after_events(bracket_of(state), state.delta_events(choice)) == Some(bracket_of(s2)));
    match choice.finish_reason {
        Some(code) => {
            lemma_closing(s2);
            let stop = s2.finish_events(code, usage)[s2.closing().len() as int];
            assert(s2.finish_events(code, usage) =~= s2.closing() + seq![stop]);
            lemma_after_events_add(bracket_of(s2), s2.closing(), seq![stop]);
            lemma_after_one(None, stop);
            lemma_after_events_add(
                bracket_of(state),
                state.delta_events(choice),
                s2.finish_events(code, usage),
            );
        },
        None => {},
    }
}

/// The events of a frame keep the order.
pub proof fn lemma_chunk_events(state: DecoderView, chunk: ChunkView)
    ensures
        after_events(bracket_of(state), state.chunk_events(chunk)) == Some(
            bracket_of(state.after_chunk(chunk)),
        ),
{
    if !state.finished {
        let started = DecoderView { started: true, ..state };
        let start = if state.started {
            Seq::empty()
        } else {
            seq![state.chunk_events(chunk)[0]]
        };
        if !state.started {
            lemma_after_one(bracket_of(state), state.chunk_events(chunk)[0]);
        }
        assert(after_events(bracket_of(state), start) == Some(bracket_of(started)));
        if chunk.choices.len() > 0 {
            lemma_choice_events(started, chunk.choices[0], chunk.usage);
            assert(state.chunk_events(chunk) =~= start + started.choice_events(
                chunk.choices[0],
                chunk.usage,
            ));
            lemma_after_events_add(
                bracket_of(state),
                start,
                started.choice_events(chunk.choices[0], chunk.usage),
            );
        } else {
            assert(state.chunk_events(chunk) =~= start);
        }
    }
}

/// The events of a run of frames keep the order.
pub proof fn lemma_chunks_events(state: DecoderView, chunks: Seq<ChunkView>)
    ensures
        after_events(bracket_of(state), state.chunks_events(chunks)) == Some(
            bracket_of(state.after_chunks(chunks)),
        ),
    decreases chunks.len(),
{
    if chunks.len() > 0 {
        let before = state.after_chunks(chunks.drop_last());
        lemma_chunks_events(state, chunks.drop_last());
        lemma_chunk_events(before, chunks.last());
        lemma_after_events_add(
            bracket_of(state),
            state.chunks_events(chunks.drop_last()),
            before.chunk_events(chunks.last()),
        );
    }
}

/// The events of a run of lines keep the order.
pub proof fn lemma_lines_events(state: DecoderView, lines: Seq<Seq<char>>)
    ensures
        after_events(bracket_of(state), lines_events(state, lines)) == Some(
            bracket_of(after_lines(state, lines)),
        ),
    decreases lines.len(),
{
    if lines.len() > 0 {
        let before = after_lines(state, lines.drop_last());
        lemma_lines_events(state, lines.drop_last());
        match crate::llm::openai_stream::line_action(lines.last()) {
            crate::llm::openai_stream::LineActionView::Parse(data) => {
                match crate::llm::openai_wire::chunk_of_text(data) {
                    Some(chunk) => {
                        lemma_chunk_events(before, chunk);
                    },
                    None => {},
                }
            },
            _ => {},
        }
        assert(after_events(bracket_of(before), line_events(before, lines.last())) == Some(
            bracket_of(after_line(before, lines.last())),
        ));
        lemma_after_events_add(
            bracket_of(state),
            lines_events(state, lines.drop_last()),
            line_events(before, lines.last()),
        );
    }
}

/// Every decoded stream is in order: whatever the frames, blocks open and
/// close one at a time, content goes to the open block of its kind, no block
/// stays open, and the last event ends the reply.
pub proof fn lemma_decoded_in_order(model: Seq<char>, chunks: Seq<ChunkView>)
    ensures
        after_events(None, decoded(model, chunks)) == Some(None::<Bracket>),
        decoded(model, chunks).len() > 0,
        decoded(model, chunks).last() is MessageStop,
{
    let start = DecoderView::initial(model);
    let end = start.after_chunks(chunks);
    lemma_chunks_events(start, chunks);
    lemma_closing(end);
    let stop = StreamEventView::MessageStop;
    assert(end.end_events() =~= end.closing() + seq![stop]);
    lemma_after_events_add(bracket_of(end), end.closing(), seq![stop]);
    lemma_after_one(None, stop);
    lemma_after_events_add(None, start.chunks_events(chunks), end.end_events());
    assert(decoded(model, chunks).last() == end.end_events().last());
}

/// The same for a stream given by its lines, whatever the lines hold.
pub proof fn lemma_decoded_lines_in_order(model: Seq<char>, lines: Seq<Seq<char>>)
    ensures
        after_events(None, decoded_lines(model, lines)) == Some(None::<Bracket>),
        decoded_lines(model, lines).len() > 0,
        decoded_lines(model, lines).last() is MessageStop,
{
    let start = DecoderView::initial(model);
    let end = after_lines(start, lines);
    lemma_lines_events(start, lines);
    lemma_closing(end);
    let stop = StreamEventView::MessageStop;
    assert(end.end_events() =~= end.closing() + seq![stop]);
    lemma_after_events_add(bracket_of(end), end.closing(), seq![stop]);
    lemma_after_one(None, stop);
    lemma_after_events_add(None, lines_events(start, lines), end.end_events());
    assert(decoded_lines(model, lines).last() == end.end_events().last());
}

} // verus!

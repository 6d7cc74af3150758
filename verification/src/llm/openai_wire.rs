//! The vendor's JSON: reading frames and replies, and writing requests.
//!
//! A value that lacks a required member, or holds a member of the wrong
//! kind, is rejected as a whole. Members that the protocol does not name are
//! passed over.

use vstd::prelude::*;
use vstd::string::StringExecFns;
use crate::json::{
    array, array_member, as_elements, as_string, boolean, entry_views, get_elements,
    get_optional_str, get_present, get_str, get_u32, get_u64, is_object, json_elements,
    json_is_object, json_of_array, json_of_bool, json_of_object, json_of_string, json_of_u64,
    json_parsed, json_string, number, object, optional_string_member, parse, present_member, put,
    string, string_member, text_or_empty, to_text, u32_member, u64_member,
};
use crate::llm::openai::{
    converted_response, ContentPartView, OpenAiChoice, OpenAiChoiceView, OpenAiContent,
    OpenAiContentPart, OpenAiFunctionCall, OpenAiImageUrl, OpenAiMessage, OpenAiMessageView,
    OpenAiProvider, OpenAiRequest, OpenAiRequestView, OpenAiResponse, OpenAiResponseView,
    OpenAiTool, OpenAiToolCall, OpenAiToolChoice, OpenAiToolView, OpenAiUsage, ProviderError,
    ProviderErrorView, Temperature, ToolCallView, WireContentView, WireToolChoiceView,
};
use crate::llm::openai_stream::{
    line_action, ChoiceView, ChunkView, DecoderView, FragmentView, LineAction, LineActionView,
    OpenAiDelta, OpenAiFunctionDelta, OpenAiStreamChoice, OpenAiStreamChunk, OpenAiToolCallDelta,
    StreamDecoder,
};
use crate::llm::types::{
    lemma_deep_view_push, MessageResponse, MessageResponseView, StreamEvent, StreamEventView,
};
use crate::text::{decimal, str_eq, u64_to_string};

verus! {

/// The usage that a JSON value describes: an object with the three counts.
pub open spec fn usage_of_json(value: serde_json::Value) -> Option<OpenAiUsage> {
    match (
        u32_member(value, "prompt_tokens"@),
        u32_member(value, "completion_tokens"@),
        u32_member(value, "total_tokens"@),
    ) {
        (Some(prompt_tokens), Some(completion_tokens), Some(total_tokens)) => if json_is_object(
            value,
        ) {
            Some(OpenAiUsage { prompt_tokens, completion_tokens, total_tokens })
        } else {
            None
        },
        _ => None,
    }
}

/// The usage under `key`, which may be left out. The outer `None` stands for
/// a member that is there and describes no usage.
pub open spec fn optional_usage(value: serde_json::Value, key: Seq<char>) -> Option<
    Option<OpenAiUsage>,
> {
    match present_member(value, key) {
        None => Some(None),
        Some(m) => match usage_of_json(m) {
            Some(u) => Some(Some(u)),
            None => None,
        },
    }
}

/// The function part of a fragment: its name and its arguments, each of
/// which may be left out.
pub open spec fn function_of_json(value: serde_json::Value) -> Option<
    (Option<Seq<char>>, Option<Seq<char>>),
> {
    match (optional_string_member(value, "name"@), optional_string_member(value, "arguments"@)) {
        (Some(name), Some(arguments)) => if json_is_object(value) {
            Some((name, arguments))
        } else {
            None
        },
        _ => None,
    }
}

/// The function part under `key`, which may be left out as a whole.
pub open spec fn optional_function(value: serde_json::Value, key: Seq<char>) -> Option<
    (Option<Seq<char>>, Option<Seq<char>>),
> {
    match present_member(value, key) {
        None => Some((None, None)),
        Some(m) => function_of_json(m),
    }
}

/// The fragment of a tool call that a JSON value describes.
pub open spec fn fragment_of_json(value: serde_json::Value) -> Option<FragmentView> {
    match (
        u32_member(value, "index"@),
        optional_string_member(value, "id"@),
        optional_string_member(value, "type"@),
        optional_function(value, "function"@),
    ) {
        (Some(index), Some(id), Some(tool_type), Some(function)) => if json_is_object(value) {
            Some(FragmentView { index, id, tool_type, name: function.0, arguments: function.1 })
        } else {
            None
        },
        _ => None,
    }
}

/// The fragments that JSON values describe, if each describes one.
pub open spec fn fragments_of_json(values: Seq<serde_json::Value>) -> Option<Seq<FragmentView>>
    decreases values.len(),
{
    if values.len() == 0 {
        Some(Seq::empty())
    } else {
        match (fragments_of_json(values.drop_last()), fragment_of_json(values.last())) {
            (Some(rest), Some(fragment)) => Some(rest.push(fragment)),
            _ => None,
        }
    }
}

/// The fragments under `key`, which may be left out.
pub open spec fn optional_fragments(value: serde_json::Value, key: Seq<char>) -> Option<
    Option<Seq<FragmentView>>,
> {
    match present_member(value, key) {
        None => Some(None),
        Some(m) => match json_elements(m) {
            Some(values) => match fragments_of_json(values) {
                Some(fragments) => Some(Some(fragments)),
                None => None,
            },
            None => None,
        },
    }
}

/// The choice of a frame that a JSON value describes: its index, its partial
/// update, and a finish code that may be left out.
pub open spec fn choice_of_json(value: serde_json::Value) -> Option<ChoiceView> {
    match (u32_member(value, "index"@), present_member(value, "delta"@), optional_string_member(
        value,
        "finish_reason"@,
    )) {
        (Some(index), Some(delta), Some(finish_reason)) => match (
            optional_string_member(delta, "role"@),
            optional_string_member(delta, "content"@),
            optional_fragments(delta, "tool_calls"@),
        ) {
            (Some(role), Some(content), Some(tool_calls)) => if json_is_object(value)
                && json_is_object(delta) {
                Some(ChoiceView { index, role, content, tool_calls, finish_reason })
            } else {
                None
            },
            _ => None,
        },
        _ => None,
    }
}

/// The choices that JSON values describe, if each describes one.
pub open spec fn choices_of_json(values: Seq<serde_json::Value>) -> Option<Seq<ChoiceView>>
    decreases values.len(),
{
    if values.len() == 0 {
        Some(Seq::empty())
    } else {
        match (choices_of_json(values.drop_last()), choice_of_json(values.last())) {
            (Some(rest), Some(choice)) => Some(rest.push(choice)),
            _ => None,
        }
    }
}

/// The frame that a JSON value describes.
pub open spec fn chunk_of_json(value: serde_json::Value) -> Option<ChunkView> {
    match (
        string_member(value, "id"@),
        string_member(value, "object"@),
        u64_member(value, "created"@),
        string_member(value, "model"@),
        array_member(value, "choices"@),
        optional_usage(value, "usage"@),
    ) {
        (Some(id), Some(object), Some(created), Some(model), Some(values), Some(usage)) => match choices_of_json(
            values,
        ) {
            Some(choices) => if json_is_object(value) {
                Some(ChunkView { id, object, created, model, choices, usage })
            } else {
                None
            },
            None => None,
        },
        _ => None,
    }
}

/// The frame that a text describes: the text is one JSON document, and the
/// document describes a frame.
pub open spec fn chunk_of_text(text: Seq<char>) -> Option<ChunkView> {
    match json_parsed(text) {
        Some(value) => chunk_of_json(value),
        None => None,
    }
}

/// Where the first values describe no fragments, the whole does not either.
pub proof fn lemma_fragments_prefix(values: Seq<serde_json::Value>, n: int)
    requires
        0 <= n <= values.len(),
        fragments_of_json(values.take(n)) is None,
    ensures
        fragments_of_json(values) is None,
    decreases values.len() - n,
{
    if n < values.len() {
        assert(values.take(n + 1).drop_last() =~= values.take(n));
        lemma_fragments_prefix(values, n + 1);
    } else {
        assert(values.take(n) =~= values);
    }
}

/// Where the first values describe no choices, the whole does not either.
pub proof fn lemma_choices_prefix(values: Seq<serde_json::Value>, n: int)
    requires
        0 <= n <= values.len(),
        choices_of_json(values.take(n)) is None,
    ensures
        choices_of_json(values) is None,
    decreases values.len() - n,
{
    if n < values.len() {
        assert(values.take(n + 1).drop_last() =~= values.take(n));
        lemma_choices_prefix(values, n + 1);
    } else {
        assert(values.take(n) =~= values);
    }
}

/// Reads a usage.
pub fn parse_usage(value: &serde_json::Value) -> (r: Option<OpenAiUsage>)
    ensures
        r == usage_of_json(*value),
{
    match (
        get_u32(value, "prompt_tokens"),
        get_u32(value, "completion_tokens"),
        get_u32(value, "total_tokens"),
    ) {
        (Some(prompt_tokens), Some(completion_tokens), Some(total_tokens)) => {
            if is_object(value) {
                Some(OpenAiUsage { prompt_tokens, completion_tokens, total_tokens })
            } else {
                None
            }
        },
        _ => None,
    }
}

/// Reads a usage that may be left out.
pub fn parse_optional_usage(value: &serde_json::Value, key: &str) -> (r: Result<
    Option<OpenAiUsage>,
    (),
>)
    ensures
        match r {
            Ok(usage) => optional_usage(*value, key@) == Some(usage),
            Err(_) => optional_usage(*value, key@) is None,
        },
{
    match get_present(value, key) {
        None => Ok(None),
        Some(m) => match parse_usage(&m) {
            Some(u) => Ok(Some(u)),
            None => Err(()),
        },
    }
}

/// Reads one fragment of a tool call.
pub fn parse_fragment(value: &serde_json::Value) -> (r: Option<OpenAiToolCallDelta>)
    ensures
        r.deep_view() == fragment_of_json(*value),
{
    let index = match get_u32(value, "index") {
        Some(index) => index,
        None => {
            return None;
        },
    };
    let id = match get_optional_str(value, "id") {
        Ok(id) => id,
        Err(_) => {
            return None;
        },
    };
    let tool_type = match get_optional_str(value, "type") {
        Ok(tool_type) => tool_type,
        Err(_) => {
            return None;
        },
    };
    let function = match get_present(value, "function") {
        None => None,
        Some(f) => {
            let name = match get_optional_str(&f, "name") {
                Ok(name) => name,
                Err(_) => {
                    return None;
                },
            };
            let arguments = match get_optional_str(&f, "arguments") {
                Ok(arguments) => arguments,
                Err(_) => {
                    return None;
                },
            };
            if !is_object(&f) {
                return None;
            }
            Some(OpenAiFunctionDelta { name, arguments })
        },
    };
    if !is_object(value) {
        return None;
    }
    Some(OpenAiToolCallDelta { index, id, tool_type, function })
}

/// Reads the fragments of a frame.
pub fn parse_fragments(values: &Vec<serde_json::Value>) -> (r: Option<Vec<OpenAiToolCallDelta>>)
    ensures
        r.deep_view() == fragments_of_json(values@),
{
    let mut out: Vec<OpenAiToolCallDelta> = Vec::new();
    let mut i: usize = 0;
    proof {
        assert(out.deep_view() =~= Seq::empty());
    }
    while i < values.len()
        invariant
            0 <= i <= values.len(),
            fragments_of_json(values@.take(i as int)) == Some(out.deep_view()),
        decreases values.len() - i,
    {
        proof {
            let next = values@.take(i + 1);
            assert(next.drop_last() =~= values@.take(i as int));
            assert(next.last() == values[i as int]);
        }
        match parse_fragment(&values[i]) {
            Some(fragment) => {
                let ghost before = out;
                out.push(fragment);
                proof {
                    lemma_deep_view_push(before, out, out[out.len() - 1]);
                }
            },
            None => {
                proof {
                    lemma_fragments_prefix(values@, i + 1);
                }
                return None;
            },
        }
        i += 1;
    }
    proof {
        assert(values@.take(values.len() as int) =~= values@);
    }
    Some(out)
}

/// Reads one choice of a frame.
pub fn parse_choice(value: &serde_json::Value) -> (r: Option<OpenAiStreamChoice>)
    ensures
        r.deep_view() == choice_of_json(*value),
{
    let index = match get_u32(value, "index") {
        Some(index) => index,
        None => {
            return None;
        },
    };
    let delta = match get_present(value, "delta") {
        Some(delta) => delta,
        None => {
            return None;
        },
    };
    let finish_reason = match get_optional_str(value, "finish_reason") {
        Ok(finish_reason) => finish_reason,
        Err(_) => {
            return None;
        },
    };
    let role = match get_optional_str(&delta, "role") {
        Ok(role) => role,
        Err(_) => {
            return None;
        },
    };
    let content = match get_optional_str(&delta, "content") {
        Ok(content) => content,
        Err(_) => {
            return None;
        },
    };
    let tool_calls = match get_present(&delta, "tool_calls") {
        None => None,
        Some(m) => match as_elements(&m) {
            Some(values) => match parse_fragments(&values) {
                Some(fragments) => Some(fragments),
                None => {
                    return None;
                },
            },
            None => {
                return None;
            },
        },
    };
    if !is_object(value) || !is_object(&delta) {
        return None;
    }
    Some(OpenAiStreamChoice { index, delta: OpenAiDelta { role, content, tool_calls }, finish_reason })
}

/// Reads the choices of a frame.
pub fn parse_choices(values: &Vec<serde_json::Value>) -> (r: Option<Vec<OpenAiStreamChoice>>)
    ensures
        r.deep_view() == choices_of_json(values@),
{
    let mut out: Vec<OpenAiStreamChoice> = Vec::new();
    let mut i: usize = 0;
    proof {
        assert(out.deep_view() =~= Seq::empty());
    }
    while i < values.len()
        invariant
            0 <= i <= values.len(),
            choices_of_json(values@.take(i as int)) == Some(out.deep_view()),
        decreases values.len() - i,
    {
        proof {
            let next = values@.take(i + 1);
            assert(next.drop_last() =~= values@.take(i as int));
            assert(next.last() == values[i as int]);
        }
        match parse_choice(&values[i]) {
            Some(choice) => {
                let ghost before = out;
                out.push(choice);
                proof {
                    lemma_deep_view_push(before, out, out[out.len() - 1]);
                }
            },
            None => {
                proof {
                    lemma_choices_prefix(values@, i + 1);
                }
                return None;
            },
        }
        i += 1;
    }
    proof {
        assert(values@.take(values.len() as int) =~= values@);
    }
    Some(out)
}

/// Reads a frame from a JSON value.
pub fn chunk_from_json(value: &serde_json::Value) -> (r: Option<OpenAiStreamChunk>)
    ensures
        r.deep_view() == chunk_of_json(*value),
{
    let id = match get_str(value, "id") {
        Some(id) => id,
        None => {
            return None;
        },
    };
    let object = match get_str(value, "object") {
        Some(object) => object,
        None => {
            return None;
        },
    };
    let created = match get_u64(value, "created") {
        Some(created) => created,
        None => {
            return None;
        },
    };
    let model = match get_str(value, "model") {
        Some(model) => model,
        None => {
            return None;
        },
    };
    let values = match get_elements(value, "choices") {
        Some(values) => values,
        None => {
            return None;
        },
    };
    let usage = match parse_optional_usage(value, "usage") {
        Ok(usage) => usage,
        Err(_) => {
            return None;
        },
    };
    let choices = match parse_choices(&values) {
        Some(choices) => choices,
        None => {
            return None;
        },
    };
    if !is_object(value) {
        return None;
    }
    Some(OpenAiStreamChunk { id, object, created, model, choices, usage })
}

/// Reads a frame from its text. A text that describes no frame gives `None`:
/// such a frame is passed over, and the stream goes on.
pub fn parse_chunk(data: &str) -> (r: Option<OpenAiStreamChunk>)
    ensures
        r.deep_view() == chunk_of_text(data@),
{
    match parse(data) {
        Some(value) => chunk_from_json(&value),
        None => None,
    }
}

/// The decoder after one line of the stream. A line without a frame changes
/// nothing, and neither does a frame whose text describes none. The end
/// marker ends the reply.
pub open spec fn after_line(state: DecoderView, line: Seq<char>) -> DecoderView {
    if state.finished {
        state
    } else {
        match line_action(line) {
            LineActionView::Skip => state,
            LineActionView::End => state.ended(),
            LineActionView::Parse(data) => match chunk_of_text(data) {
                Some(chunk) => state.after_chunk(chunk),
                None => state,
            },
        }
    }
}

/// The events for one line of the stream: those of its frame, if it carries
/// one that can be read.
pub open spec fn line_events(state: DecoderView, line: Seq<char>) -> Seq<StreamEventView> {
    if state.finished {
        Seq::empty()
    } else {
        match line_action(line) {
            LineActionView::Parse(data) => match chunk_of_text(data) {
                Some(chunk) => state.chunk_events(chunk),
                None => Seq::empty(),
            },
            _ => Seq::empty(),
        }
    }
}

/// The decoder after a run of lines.
pub open spec fn after_lines(state: DecoderView, lines: Seq<Seq<char>>) -> DecoderView
    decreases lines.len(),
{
    if lines.len() == 0 {
        state
    } else {
        after_line(after_lines(state, lines.drop_last()), lines.last())
    }
}

/// The events for a run of lines.
pub open spec fn lines_events(state: DecoderView, lines: Seq<Seq<char>>) -> Seq<StreamEventView>
    decreases lines.len(),
{
    if lines.len() == 0 {
        Seq::empty()
    } else {
        lines_events(state, lines.drop_last()) + line_events(
            after_lines(state, lines.drop_last()),
            lines.last(),
        )
    }
}

/// The events of a whole streamed reply for the model `model`, from the
/// lines of the stream: those of the lines in order, then those of the end of
/// the stream.
pub open spec fn decoded_lines(model: Seq<char>, lines: Seq<Seq<char>>) -> Seq<StreamEventView> {
    let start = DecoderView::initial(model);
    lines_events(start, lines) + after_lines(start, lines).end_events()
}

/// Whether a line carries a frame that cannot be read and is passed over:
/// the reply has not stopped, the line holds the text of a frame, and the
/// text describes none.
pub open spec fn frame_skipped(state: DecoderView, line: Seq<char>) -> bool {
    !state.finished && match line_action(line) {
        LineActionView::Parse(data) => chunk_of_text(data) is None,
        _ => false,
    }
}

/// Takes one line of the stream. Gives its events, and says whether the
/// line carried a frame that could not be read and was passed over, so that
/// the caller can log it; the stream goes on all the same.
pub fn take_line_reporting(decoder: &mut StreamDecoder, line: &str) -> (r: (Vec<StreamEvent>, bool))
    ensures
        final(decoder).deep_view() == after_line(old(decoder).deep_view(), line@),
        r.0.deep_view() == line_events(old(decoder).deep_view(), line@),
        r.1 == frame_skipped(old(decoder).deep_view(), line@),
{
    let empty: Vec<StreamEvent> = Vec::new();
    proof {
        assert(empty.deep_view() =~= Seq::empty());
    }
    match decoder.accept_line(line) {
        LineAction::Skip => (empty, false),
        LineAction::End => {
            decoder.end();
            (empty, false)
        },
        LineAction::Parse(data) => match parse_chunk(data.as_str()) {
            Some(chunk) => (decoder.accept_chunk(&chunk), false),
            None => (empty, true),
        },
    }
}

/// Takes one line of the stream and gives its events.
pub fn take_line(decoder: &mut StreamDecoder, line: &str) -> (events: Vec<StreamEvent>)
    ensures
        final(decoder).deep_view() == after_line(old(decoder).deep_view(), line@),
        events.deep_view() == line_events(old(decoder).deep_view(), line@),
{
    take_line_reporting(decoder, line).0
}

/// Decodes a whole streamed reply from the lines of the stream.
pub fn decode_lines(model: &str, lines: &Vec<String>) -> (events: Vec<StreamEvent>)
    ensures
        events.deep_view() == decoded_lines(model@, lines.deep_view()),
{
    let mut decoder = StreamDecoder::new(model);
    let mut events: Vec<StreamEvent> = Vec::new();
    let ghost start = decoder.deep_view();
    let mut i: usize = 0;
    proof {
        assert(events.deep_view() =~= Seq::empty());
    }
    while i < lines.len()
        invariant
            0 <= i <= lines.len(),
            start == DecoderView::initial(model@),
            decoder.deep_view() == after_lines(start, lines.deep_view().take(i as int)),
            events.deep_view() == lines_events(start, lines.deep_view().take(i as int)),
        decreases lines.len() - i,
    {
        proof {
            let next = lines.deep_view().take(i + 1);
            assert(next.drop_last() =~= lines.deep_view().take(i as int));
            assert(next.last() == lines[i as int]@);
        }
        let mut more = take_line(&mut decoder, lines[i].as_str());
        let ghost before = events;
        let ghost added = more;
        events.append(&mut more);
        proof {
            crate::llm::types::lemma_deep_view_add(before, added, events);
        }
        i += 1;
    }
    proof {
        assert(lines.deep_view().take(lines.len() as int) =~= lines.deep_view());
    }
    let mut last = decoder.finish();
    let ghost before = events;
    let ghost added = last;
    events.append(&mut last);
    proof {
        crate::llm::types::lemma_deep_view_add(before, added, events);
    }
    events
}

/// The part of a message's content that a JSON value describes: an object
/// whose `type` says whether it is text or the address of an image.
pub open spec fn part_of_json(value: serde_json::Value) -> Option<ContentPartView> {
    match string_member(value, "type"@) {
        Some(kind) => if !json_is_object(value) {
            None
        } else if kind == "text"@ {
            match string_member(value, "text"@) {
                Some(text) => Some(ContentPartView::Text { text }),
                None => None,
            }
        } else if kind == "image_url"@ {
            match present_member(value, "image_url"@) {
                Some(image) => match string_member(image, "url"@) {
                    Some(url) => if json_is_object(image) {
                        Some(ContentPartView::ImageUrl { url })
                    } else {
                        None
                    },
                    None => None,
                },
                None => None,
            }
        } else {
            None
        },
        None => None,
    }
}

/// The parts that JSON values describe, if each describes one.
pub open spec fn parts_of_json(values: Seq<serde_json::Value>) -> Option<Seq<ContentPartView>>
    decreases values.len(),
{
    if values.len() == 0 {
        Some(Seq::empty())
    } else {
        match (parts_of_json(values.drop_last()), part_of_json(values.last())) {
            (Some(rest), Some(part)) => Some(rest.push(part)),
            _ => None,
        }
    }
}

/// The content that a JSON value describes: a string is text, an array is
/// parts.
pub open spec fn content_of_json(value: serde_json::Value) -> Option<WireContentView> {
    match json_string(value) {
        Some(text) => Some(WireContentView::Text(text)),
        None => match json_elements(value) {
            Some(values) => match parts_of_json(values) {
                Some(parts) => Some(WireContentView::Parts(parts)),
                None => None,
            },
            None => None,
        },
    }
}

/// The content under `key`, which may be left out.
pub open spec fn optional_content(value: serde_json::Value, key: Seq<char>) -> Option<
    Option<WireContentView>,
> {
    match present_member(value, key) {
        None => Some(None),
        Some(m) => match content_of_json(m) {
            Some(content) => Some(Some(content)),
            None => None,
        },
    }
}

/// The tool call that a JSON value describes: an id, a type, and a function
/// with its name and its arguments.
pub open spec fn call_of_json(value: serde_json::Value) -> Option<ToolCallView> {
    match (string_member(value, "id"@), string_member(value, "type"@), present_member(
        value,
        "function"@,
    )) {
        (Some(id), Some(tool_type), Some(function)) => match (
            string_member(function, "name"@),
            string_member(function, "arguments"@),
        ) {
            (Some(name), Some(arguments)) => if json_is_object(value) && json_is_object(function) {
                Some(ToolCallView { id, tool_type, name, arguments })
            } else {
                None
            },
            _ => None,
        },
        _ => None,
    }
}

/// The tool calls that JSON values describe, if each describes one.
pub open spec fn calls_of_json(values: Seq<serde_json::Value>) -> Option<Seq<ToolCallView>>
    decreases values.len(),
{
    if values.len() == 0 {
        Some(Seq::empty())
    } else {
        match (calls_of_json(values.drop_last()), call_of_json(values.last())) {
            (Some(rest), Some(call)) => Some(rest.push(call)),
            _ => None,
        }
    }
}

/// The tool calls under `key`, which may be left out.
pub open spec fn optional_calls(value: serde_json::Value, key: Seq<char>) -> Option<
    Option<Seq<ToolCallView>>,
> {
    match present_member(value, key) {
        None => Some(None),
        Some(m) => match json_elements(m) {
            Some(values) => match calls_of_json(values) {
                Some(calls) => Some(Some(calls)),
                None => None,
            },
            None => None,
        },
    }
}

/// The message that a JSON value describes.
pub open spec fn message_of_json(value: serde_json::Value) -> Option<OpenAiMessageView> {
    match (
        string_member(value, "role"@),
        optional_content(value, "content"@),
        optional_calls(value, "tool_calls"@),
        optional_string_member(value, "tool_call_id"@),
    ) {
        (Some(role), Some(content), Some(tool_calls), Some(tool_call_id)) => if json_is_object(
            value,
        ) {
            Some(OpenAiMessageView { role, content, tool_calls, tool_call_id })
        } else {
            None
        },
        _ => None,
    }
}

/// The choice of a reply that a JSON value describes.
pub open spec fn reply_choice_of_json(value: serde_json::Value) -> Option<OpenAiChoiceView> {
    match (u32_member(value, "index"@), present_member(value, "message"@), optional_string_member(
        value,
        "finish_reason"@,
    )) {
        (Some(index), Some(m), Some(finish_reason)) => match message_of_json(m) {
            Some(message) => if json_is_object(value) {
                Some(OpenAiChoiceView { index, message, finish_reason })
            } else {
                None
            },
            None => None,
        },
        _ => None,
    }
}

/// The choices of a reply that JSON values describe, if each describes one.
pub open spec fn reply_choices_of_json(values: Seq<serde_json::Value>) -> Option<
    Seq<OpenAiChoiceView>,
>
    decreases values.len(),
{
    if values.len() == 0 {
        Some(Seq::empty())
    } else {
        match (reply_choices_of_json(values.drop_last()), reply_choice_of_json(values.last())) {
            (Some(rest), Some(choice)) => Some(rest.push(choice)),
            _ => None,
        }
    }
}

/// The reply that a JSON value describes.
pub open spec fn response_of_json(value: serde_json::Value) -> Option<OpenAiResponseView> {
    match (
        string_member(value, "id"@),
        string_member(value, "object"@),
        u64_member(value, "created"@),
        string_member(value, "model"@),
        array_member(value, "choices"@),
        optional_usage(value, "usage"@),
    ) {
        (Some(id), Some(object), Some(created), Some(model), Some(values), Some(usage)) => match reply_choices_of_json(
            values,
        ) {
            Some(choices) => if json_is_object(value) {
                Some(OpenAiResponseView { id, object, created, model, choices, usage })
            } else {
                None
            },
            None => None,
        },
        _ => None,
    }
}

/// The reply that a text describes.
pub open spec fn response_of_text(text: Seq<char>) -> Option<OpenAiResponseView> {
    match json_parsed(text) {
        Some(value) => response_of_json(value),
        None => None,
    }
}

/// Where the first values describe no parts, the whole does not either.
pub proof fn lemma_parts_prefix(values: Seq<serde_json::Value>, n: int)
    requires
        0 <= n <= values.len(),
        parts_of_json(values.take(n)) is None,
    ensures
        parts_of_json(values) is None,
    decreases values.len() - n,
{
    if n < values.len() {
        assert(values.take(n + 1).drop_last() =~= values.take(n));
        lemma_parts_prefix(values, n + 1);
    } else {
        assert(values.take(n) =~= values);
    }
}

/// Where the first values describe no tool calls, the whole does not either.
pub proof fn lemma_calls_prefix(values: Seq<serde_json::Value>, n: int)
    requires
        0 <= n <= values.len(),
        calls_of_json(values.take(n)) is None,
    ensures
        calls_of_json(values) is None,
    decreases values.len() - n,
{
    if n < values.len() {
        assert(values.take(n + 1).drop_last() =~= values.take(n));
        lemma_calls_prefix(values, n + 1);
    } else {
        assert(values.take(n) =~= values);
    }
}

/// Where the first values describe no choices of a reply, the whole does not
/// either.
pub proof fn lemma_reply_choices_prefix(values: Seq<serde_json::Value>, n: int)
    requires
        0 <= n <= values.len(),
        reply_choices_of_json(values.take(n)) is None,
    ensures
        reply_choices_of_json(values) is None,
    decreases values.len() - n,
{
    if n < values.len() {
        assert(values.take(n + 1).drop_last() =~= values.take(n));
        lemma_reply_choices_prefix(values, n + 1);
    } else {
        assert(values.take(n) =~= values);
    }
}

/// Reads one part of a message's content.
pub fn parse_part(value: &serde_json::Value) -> (r: Option<OpenAiContentPart>)
    ensures
        r.deep_view() == part_of_json(*value),
{
    let kind = match get_str(value, "type") {
        Some(kind) => kind,
        None => {
            return None;
        },
    };
    if !is_object(value) {
        return None;
    }
    if str_eq(kind.as_str(), "text") {
        match get_str(value, "text") {
            Some(text) => Some(OpenAiContentPart::Text { text }),
            None => None,
        }
    } else if str_eq(kind.as_str(), "image_url") {
        match get_present(value, "image_url") {
            Some(image) => match get_str(&image, "url") {
                Some(url) => {
                    if is_object(&image) {
                        Some(OpenAiContentPart::ImageUrl { image_url: OpenAiImageUrl { url } })
                    } else {
                        None
                    }
                },
                None => None,
            },
            None => None,
        }
    } else {
        None
    }
}

/// Reads the parts of a message's content.
pub fn parse_parts(values: &Vec<serde_json::Value>) -> (r: Option<Vec<OpenAiContentPart>>)
    ensures
        r.deep_view() == parts_of_json(values@),
{
    let mut out: Vec<OpenAiContentPart> = Vec::new();
    let mut i: usize = 0;
    proof {
        assert(out.deep_view() =~= Seq::empty());
    }
    while i < values.len()
        invariant
            0 <= i <= values.len(),
            parts_of_json(values@.take(i as int)) == Some(out.deep_view()),
        decreases values.len() - i,
    {
        proof {
            let next = values@.take(i + 1);
            assert(next.drop_last() =~= values@.take(i as int));
            assert(next.last() == values[i as int]);
        }
        match parse_part(&values[i]) {
            Some(part) => {
                let ghost before = out;
                out.push(part);
                proof {
                    lemma_deep_view_push(before, out, out[out.len() - 1]);
                }
            },
            None => {
                proof {
                    lemma_parts_prefix(values@, i + 1);
                }
                return None;
            },
        }
        i += 1;
    }
    proof {
        assert(values@.take(values.len() as int) =~= values@);
    }
    Some(out)
}

/// Reads the content of a message.
pub fn parse_content(value: &serde_json::Value) -> (r: Option<OpenAiContent>)
    ensures
        r.deep_view() == content_of_json(*value),
{
    match as_string(value) {
        Some(text) => Some(OpenAiContent::Text(text)),
        None => match as_elements(value) {
            Some(values) => match parse_parts(&values) {
                Some(parts) => Some(OpenAiContent::Parts(parts)),
                None => None,
            },
            None => None,
        },
    }
}

/// Reads one tool call of a message.
pub fn parse_call(value: &serde_json::Value) -> (r: Option<OpenAiToolCall>)
    ensures
        r.deep_view() == call_of_json(*value),
{
    let id = match get_str(value, "id") {
        Some(id) => id,
        None => {
            return None;
        },
    };
    let tool_type = match get_str(value, "type") {
        Some(tool_type) => tool_type,
        None => {
            return None;
        },
    };
    let function = match get_present(value, "function") {
        Some(function) => function,
        None => {
            return None;
        },
    };
    let name = match get_str(&function, "name") {
        Some(name) => name,
        None => {
            return None;
        },
    };
    let arguments = match get_str(&function, "arguments") {
        Some(arguments) => arguments,
        None => {
            return None;
        },
    };
    if !is_object(value) || !is_object(&function) {
        return None;
    }
    Some(OpenAiToolCall { id, tool_type, function: OpenAiFunctionCall { name, arguments } })
}

/// Reads the tool calls of a message.
pub fn parse_calls(values: &Vec<serde_json::Value>) -> (r: Option<Vec<OpenAiToolCall>>)
    ensures
        r.deep_view() == calls_of_json(values@),
{
    let mut out: Vec<OpenAiToolCall> = Vec::new();
    let mut i: usize = 0;
    proof {
        assert(out.deep_view() =~= Seq::empty());
    }
    while i < values.len()
        invariant
            0 <= i <= values.len(),
            calls_of_json(values@.take(i as int)) == Some(out.deep_view()),
        decreases values.len() - i,
    {
        proof {
            let next = values@.take(i + 1);
            assert(next.drop_last() =~= values@.take(i as int));
            assert(next.last() == values[i as int]);
        }
        match parse_call(&values[i]) {
            Some(call) => {
                let ghost before = out;
                out.push(call);
                proof {
                    lemma_deep_view_push(before, out, out[out.len() - 1]);
                }
            },
            None => {
                proof {
                    lemma_calls_prefix(values@, i + 1);
                }
                return None;
            },
        }
        i += 1;
    }
    proof {
        assert(values@.take(values.len() as int) =~= values@);
    }
    Some(out)
}

/// Reads a message.
pub fn parse_message(value: &serde_json::Value) -> (r: Option<OpenAiMessage>)
    ensures
        r.deep_view() == message_of_json(*value),
{
    let role = match get_str(value, "role") {
        Some(role) => role,
        None => {
            return None;
        },
    };
    let content = match get_present(value, "content") {
        None => None,
        Some(m) => match parse_content(&m) {
            Some(content) => Some(content),
            None => {
                return None;
            },
        },
    };
    let tool_calls = match get_present(value, "tool_calls") {
        None => None,
        Some(m) => match as_elements(&m) {
            Some(values) => match parse_calls(&values) {
                Some(calls) => Some(calls),
                None => {
                    return None;
                },
            },
            None => {
                return None;
            },
        },
    };
    let tool_call_id = match get_optional_str(value, "tool_call_id") {
        Ok(tool_call_id) => tool_call_id,
        Err(_) => {
            return None;
        },
    };
    if !is_object(value) {
        return None;
    }
    Some(OpenAiMessage { role, content, tool_calls, tool_call_id })
}

/// Reads one choice of a reply.
pub fn parse_reply_choice(value: &serde_json::Value) -> (r: Option<OpenAiChoice>)
    ensures
        r.deep_view() == reply_choice_of_json(*value),
{
    let index = match get_u32(value, "index") {
        Some(index) => index,
        None => {
            return None;
        },
    };
    let m = match get_present(value, "message") {
        Some(m) => m,
        None => {
            return None;
        },
    };
    let finish_reason = match get_optional_str(value, "finish_reason") {
        Ok(finish_reason) => finish_reason,
        Err(_) => {
            return None;
        },
    };
    let message = match parse_message(&m) {
        Some(message) => message,
        None => {
            return None;
        },
    };
    if !is_object(value) {
        return None;
    }
    Some(OpenAiChoice { index, message, finish_reason })
}

/// Reads the choices of a reply.
pub fn parse_reply_choices(values: &Vec<serde_json::Value>) -> (r: Option<Vec<OpenAiChoice>>)
    ensures
        r.deep_view() == reply_choices_of_json(values@),
{
    let mut out: Vec<OpenAiChoice> = Vec::new();
    let mut i: usize = 0;
    proof {
        assert(out.deep_view() =~= Seq::empty());
    }
    while i < values.len()
        invariant
            0 <= i <= values.len(),
            reply_choices_of_json(values@.take(i as int)) == Some(out.deep_view()),
        decreases values.len() - i,
    {
        proof {
            let next = values@.take(i + 1);
            assert(next.drop_last() =~= values@.take(i as int));
            assert(next.last() == values[i as int]);
        }
        match parse_reply_choice(&values[i]) {
            Some(choice) => {
                let ghost before = out;
                out.push(choice);
                proof {
                    lemma_deep_view_push(before, out, out[out.len() - 1]);
                }
            },
            None => {
                proof {
                    lemma_reply_choices_prefix(values@, i + 1);
                }
                return None;
            },
        }
        i += 1;
    }
    proof {
        assert(values@.take(values.len() as int) =~= values@);
    }
    Some(out)
}

/// Reads a reply from a JSON value.
pub fn response_from_json(value: &serde_json::Value) -> (r: Option<OpenAiResponse>)
    ensures
        r.deep_view() == response_of_json(*value),
{
    let id = match get_str(value, "id") {
        Some(id) => id,
        None => {
            return None;
        },
    };
    let object = match get_str(value, "object") {
        Some(object) => object,
        None => {
            return None;
        },
    };
    let created = match get_u64(value, "created") {
        Some(created) => created,
        None => {
            return None;
        },
    };
    let model = match get_str(value, "model") {
        Some(model) => model,
        None => {
            return None;
        },
    };
    let values = match get_elements(value, "choices") {
        Some(values) => values,
        None => {
            return None;
        },
    };
    let usage = match parse_optional_usage(value, "usage") {
        Ok(usage) => usage,
        Err(_) => {
            return None;
        },
    };
    let choices = match parse_reply_choices(&values) {
        Some(choices) => choices,
        None => {
            return None;
        },
    };
    if !is_object(value) {
        return None;
    }
    Some(OpenAiResponse { id, object, created, model, choices, usage })
}

/// Reads a reply from its text.
pub fn parse_response(body: &str) -> (r: Option<OpenAiResponse>)
    ensures
        r.deep_view() == response_of_text(body@),
{
    match parse(body) {
        Some(value) => response_from_json(&value),
        None => None,
    }
}

/// Whether a status of the transport is a success: 200 to 299.
pub open spec fn success_status(status: u16) -> bool {
    200 <= status < 300
}

/// What comes of the vendor's answer to a request. A status that is no
/// success is an error with the status and the body. Else the body must be
/// a reply in the vendor's shape, with at least one choice, and it gives the
/// canonical reply.
pub open spec fn received(status: u16, status_text: Seq<char>, body: Seq<char>) -> Result<
    MessageResponseView,
    ProviderErrorView,
> {
    if !success_status(status) {
        Err(ProviderErrorView::Api { status: status_text, body })
    } else {
        match response_of_text(body) {
            Some(response) => converted_response(response),
            None => Err(ProviderErrorView::Malformed),
        }
    }
}

impl OpenAiProvider {
    /// Turns the vendor's answer to a request into the canonical reply, or
    /// into the error that ends the call.
    pub fn receive(&self, status: u16, status_text: &str, body: &str) -> (r: Result<
        MessageResponse,
        ProviderError,
    >)
        ensures
            match r {
                Ok(reply) => received(status, status_text@, body@) == Ok::<
                    MessageResponseView,
                    ProviderErrorView,
                >(reply.deep_view()),
                Err(e) => received(status, status_text@, body@) == Err::<
                    MessageResponseView,
                    ProviderErrorView,
                >(e.deep_view()),
            },
    {
        if status < 200 || status >= 300 {
            return Err(
                ProviderError::Api { status: status_text.to_string(), body: body.to_string() },
            );
        }
        match parse_response(body) {
            Some(response) => self.convert_response(&response),
            None => Err(ProviderError::Malformed),
        }
    }
}

/// The members with one more behind them, where there is a value for it.
pub open spec fn with_member(
    entries: Seq<(Seq<char>, serde_json::Value)>,
    key: Seq<char>,
    value: Option<serde_json::Value>,
) -> Seq<(Seq<char>, serde_json::Value)> {
    match value {
        Some(v) => entries.push((key, v)),
        None => entries,
    }
}

/// A tool call as JSON.
pub open spec fn call_json(call: ToolCallView) -> serde_json::Value {
    json_of_object(
        seq![
            ("id"@, json_of_string(call.id)),
            ("type"@, json_of_string(call.tool_type)),
            (
                "function"@,
                json_of_object(
                    seq![
                        ("name"@, json_of_string(call.name)),
                        ("arguments"@, json_of_string(call.arguments)),
                    ],
                ),
            ),
        ],
    )
}

/// One part of a message's content as JSON.
pub open spec fn part_json(part: ContentPartView) -> serde_json::Value {
    match part {
        ContentPartView::Text { text } => json_of_object(
            seq![("type"@, json_of_string("text"@)), ("text"@, json_of_string(text))],
        ),
        ContentPartView::ImageUrl { url } => json_of_object(
            seq![
                ("type"@, json_of_string("image_url"@)),
                ("image_url"@, json_of_object(seq![("url"@, json_of_string(url))])),
            ],
        ),
    }
}

/// The content of a message as JSON: a string, or an array of parts.
pub open spec fn content_json(content: WireContentView) -> serde_json::Value {
    match content {
        WireContentView::Text(text) => json_of_string(text),
        WireContentView::Parts(parts) => json_of_array(
            parts.map_values(|p: ContentPartView| part_json(p)),
        ),
    }
}

/// A message as JSON. Members without a value are left out.
pub open spec fn message_json(message: OpenAiMessageView) -> serde_json::Value {
    let role = seq![("role"@, json_of_string(message.role))];
    let content = with_member(
        role,
        "content"@,
        match message.content {
            Some(c) => Some(content_json(c)),
            None => None,
        },
    );
    let calls = with_member(
        content,
        "tool_calls"@,
        match message.tool_calls {
            Some(calls) => Some(json_of_array(calls.map_values(|c: ToolCallView| call_json(c)))),
            None => None,
        },
    );
    json_of_object(
        with_member(
            calls,
            "tool_call_id"@,
            match message.tool_call_id {
                Some(id) => Some(json_of_string(id)),
                None => None,
            },
        ),
    )
}

/// A tool as JSON.
pub open spec fn tool_json(tool: OpenAiToolView) -> serde_json::Value {
    let name = seq![("name"@, json_of_string(tool.name))];
    let description = with_member(
        name,
        "description"@,
        match tool.description {
            Some(d) => Some(json_of_string(d)),
            None => None,
        },
    );
    json_of_object(
        seq![
            ("type"@, json_of_string(tool.tool_type)),
            ("function"@, json_of_object(with_member(description, "parameters"@, tool.parameters))),
        ],
    )
}

/// A tool choice as JSON: a mode is a string, a function is an object.
pub open spec fn tool_choice_json(choice: WireToolChoiceView) -> serde_json::Value {
    match choice {
        WireToolChoiceView::Mode(mode) => json_of_string(mode),
        WireToolChoiceView::Function { choice_type, name } => json_of_object(
            seq![
                ("type"@, json_of_string(choice_type)),
                ("function"@, json_of_object(seq![("name"@, json_of_string(name))])),
            ],
        ),
    }
}

/// A temperature as a decimal numeral with three places.
pub open spec fn temperature_text(temperature: Temperature) -> Seq<char> {
    let whole = (temperature.thousandths / 1000) as nat;
    let rest = (temperature.thousandths % 1000) as nat;
    decimal(whole) + "."@ + decimal(rest / 100) + decimal((rest / 10) % 10) + decimal(rest % 10)
}

/// A temperature as JSON: the number that its numeral reads as.
pub open spec fn temperature_json(temperature: Option<Temperature>) -> Option<serde_json::Value> {
    match temperature {
        Some(t) => json_parsed(temperature_text(t)),
        None => None,
    }
}

/// An optional count as JSON.
pub open spec fn count_json(count: Option<u32>) -> Option<serde_json::Value> {
    match count {
        Some(n) => Some(json_of_u64(n as u64)),
        None => None,
    }
}

/// A request as JSON. Members without a value are left out.
pub open spec fn request_json(request: OpenAiRequestView) -> serde_json::Value {
    let model = seq![("model"@, json_of_string(request.model))];
    let messages = model.push(
        (
            "messages"@,
            json_of_array(request.messages.map_values(|m: OpenAiMessageView| message_json(m))),
        ),
    );
    let max_tokens = with_member(messages, "max_tokens"@, count_json(request.max_tokens));
    let max_completion_tokens = with_member(
        max_tokens,
        "max_completion_tokens"@,
        count_json(request.max_completion_tokens),
    );
    let temperature = with_member(
        max_completion_tokens,
        "temperature"@,
        temperature_json(request.temperature),
    );
    let tools = with_member(
        temperature,
        "tools"@,
        match request.tools {
            Some(tools) => Some(json_of_array(tools.map_values(|t: OpenAiToolView| tool_json(t)))),
            None => None,
        },
    );
    let tool_choice = with_member(
        tools,
        "tool_choice"@,
        match request.tool_choice {
            Some(choice) => Some(tool_choice_json(choice)),
            None => None,
        },
    );
    let stream = with_member(
        tool_choice,
        "stream"@,
        match request.stream {
            Some(b) => Some(json_of_bool(b)),
            None => None,
        },
    );
    json_of_object(
        with_member(
            stream,
            "stream_options"@,
            match request.stream_options {
                Some(options) => Some(
                    json_of_object(seq![("include_usage"@, json_of_bool(options.include_usage))]),
                ),
                None => None,
            },
        ),
    )
}

/// The body of a request: its JSON, printed.
pub open spec fn request_text(request: OpenAiRequestView) -> Seq<char> {
    text_or_empty(request_json(request))
}

/// Puts a member behind the others where there is a value for it.
pub fn put_optional(
    entries: &mut Vec<(String, serde_json::Value)>,
    key: &str,
    value: Option<serde_json::Value>,
)
    ensures
        entry_views(final(entries)@) == with_member(entry_views(old(entries)@), key@, value),
{
    match value {
        Some(v) => {
            put(entries, key, v);
        },
        None => {},
    }
}

/// A tool call as JSON.
pub fn encode_call(call: &OpenAiToolCall) -> (r: serde_json::Value)
    ensures
        r == call_json(call.deep_view()),
{
    let mut function: Vec<(String, serde_json::Value)> = Vec::new();
    proof {
        assert(entry_views(function@) =~= Seq::empty());
    }
    put(&mut function, "name", string(call.function.name.as_str()));
    put(&mut function, "arguments", string(call.function.arguments.as_str()));
    let mut entries: Vec<(String, serde_json::Value)> = Vec::new();
    proof {
        assert(entry_views(entries@) =~= Seq::empty());
        assert(entry_views(function@) =~= seq![
            ("name"@, json_of_string(call.function.name@)),
            ("arguments"@, json_of_string(call.function.arguments@)),
        ]);
    }
    put(&mut entries, "id", string(call.id.as_str()));
    put(&mut entries, "type", string(call.tool_type.as_str()));
    put(&mut entries, "function", object(function));
    proof {
        assert(entry_views(entries@) =~= seq![
            ("id"@, json_of_string(call.id@)),
            ("type"@, json_of_string(call.tool_type@)),
            (
                "function"@,
                json_of_object(
                    seq![
                        ("name"@, json_of_string(call.function.name@)),
                        ("arguments"@, json_of_string(call.function.arguments@)),
                    ],
                ),
            ),
        ]);
    }
    object(entries)
}

/// One part of a message's content as JSON.
pub fn encode_part(part: &OpenAiContentPart) -> (r: serde_json::Value)
    ensures
        r == part_json(part.deep_view()),
{
    let mut entries: Vec<(String, serde_json::Value)> = Vec::new();
    proof {
        assert(entry_views(entries@) =~= Seq::empty());
    }
    match part {
        OpenAiContentPart::Text { text } => {
            put(&mut entries, "type", string("text"));
            put(&mut entries, "text", string(text.as_str()));
            proof {
                assert(entry_views(entries@) =~= seq![
                    ("type"@, json_of_string("text"@)),
                    ("text"@, json_of_string(text@)),
                ]);
            }
        },
        OpenAiContentPart::ImageUrl { image_url } => {
            let mut image: Vec<(String, serde_json::Value)> = Vec::new();
            proof {
                assert(entry_views(image@) =~= Seq::empty());
            }
            put(&mut image, "url", string(image_url.url.as_str()));
            proof {
                assert(entry_views(image@) =~= seq![("url"@, json_of_string(image_url.url@))]);
            }
            put(&mut entries, "type", string("image_url"));
            put(&mut entries, "image_url", object(image));
            proof {
                assert(entry_views(entries@) =~= seq![
                    ("type"@, json_of_string("image_url"@)),
                    ("image_url"@, json_of_object(seq![("url"@, json_of_string(image_url.url@))])),
                ]);
            }
        },
    }
    object(entries)
}

/// The content of a message as JSON.
pub fn encode_content(content: &OpenAiContent) -> (r: serde_json::Value)
    ensures
        r == content_json(content.deep_view()),
{
    match content {
        OpenAiContent::Text(text) => string(text.as_str()),
        OpenAiContent::Parts(parts) => {
            let mut values: Vec<serde_json::Value> = Vec::new();
            let mut i: usize = 0;
            while i < parts.len()
                invariant
                    0 <= i <= parts.len(),
                    values@ == parts.deep_view().take(i as int).map_values(
                        |p: ContentPartView| part_json(p),
                    ),
                decreases parts.len() - i,
            {
                values.push(encode_part(&parts[i]));
                proof {
                    assert(values@ =~= parts.deep_view().take(i + 1).map_values(
                        |p: ContentPartView| part_json(p),
                    ));
                }
                i += 1;
            }
            proof {
                assert(parts.deep_view().take(parts.len() as int) =~= parts.deep_view());
            }
            array(values)
        },
    }
}

/// Tool calls as a JSON array.
pub fn encode_calls(calls: &Vec<OpenAiToolCall>) -> (r: serde_json::Value)
    ensures
        r == json_of_array(calls.deep_view().map_values(|c: ToolCallView| call_json(c))),
{
    let mut values: Vec<serde_json::Value> = Vec::new();
    let mut i: usize = 0;
    while i < calls.len()
        invariant
            0 <= i <= calls.len(),
            values@ == calls.deep_view().take(i as int).map_values(|c: ToolCallView| call_json(c)),
        decreases calls.len() - i,
    {
        values.push(encode_call(&calls[i]));
        proof {
            assert(values@ =~= calls.deep_view().take(i + 1).map_values(
                |c: ToolCallView| call_json(c),
            ));
        }
        i += 1;
    }
    proof {
        assert(calls.deep_view().take(calls.len() as int) =~= calls.deep_view());
    }
    array(values)
}

/// A message as JSON.
pub fn encode_message(message: &OpenAiMessage) -> (r: serde_json::Value)
    ensures
        r == message_json(message.deep_view()),
{
    let mut entries: Vec<(String, serde_json::Value)> = Vec::new();
    proof {
        assert(entry_views(entries@) =~= Seq::empty());
    }
    put(&mut entries, "role", string(message.role.as_str()));
    proof {
        assert(entry_views(entries@) =~= seq![("role"@, json_of_string(message.role@))]);
    }
    let content = match &message.content {
        Some(c) => Some(encode_content(c)),
        None => None,
    };
    put_optional(&mut entries, "content", content);
    let calls = match &message.tool_calls {
        Some(calls) => Some(encode_calls(calls)),
        None => None,
    };
    put_optional(&mut entries, "tool_calls", calls);
    let id = match &message.tool_call_id {
        Some(id) => Some(string(id.as_str())),
        None => None,
    };
    put_optional(&mut entries, "tool_call_id", id);
    object(entries)
}

/// A tool as JSON.
pub fn encode_tool(tool: &OpenAiTool) -> (r: serde_json::Value)
    ensures
        r == tool_json(tool.deep_view()),
{
    let mut function: Vec<(String, serde_json::Value)> = Vec::new();
    proof {
        assert(entry_views(function@) =~= Seq::empty());
    }
    put(&mut function, "name", string(tool.function.name.as_str()));
    proof {
        assert(entry_views(function@) =~= seq![("name"@, json_of_string(tool.function.name@))]);
    }
    let description = match &tool.function.description {
        Some(d) => Some(string(d.as_str())),
        None => None,
    };
    put_optional(&mut function, "description", description);
    let parameters = match &tool.function.parameters {
        Some(p) => Some(p.clone()),
        None => None,
    };
    put_optional(&mut function, "parameters", parameters);
    let ghost inner = entry_views(function@);
    let mut entries: Vec<(String, serde_json::Value)> = Vec::new();
    proof {
        assert(entry_views(entries@) =~= Seq::empty());
    }
    put(&mut entries, "type", string(tool.tool_type.as_str()));
    put(&mut entries, "function", object(function));
    proof {
        assert(entry_views(entries@) =~= seq![
            ("type"@, json_of_string(tool.tool_type@)),
            ("function"@, json_of_object(inner)),
        ]);
    }
    object(entries)
}

/// A tool choice as JSON.
pub fn encode_tool_choice(choice: &OpenAiToolChoice) -> (r: serde_json::Value)
    ensures
        r == tool_choice_json(choice.deep_view()),
{
    match choice {
        OpenAiToolChoice::Mode(mode) => string(mode.as_str()),
        OpenAiToolChoice::Function { choice_type, function } => {
            let mut inner: Vec<(String, serde_json::Value)> = Vec::new();
            proof {
                assert(entry_views(inner@) =~= Seq::empty());
            }
            put(&mut inner, "name", string(function.name.as_str()));
            proof {
                assert(entry_views(inner@) =~= seq![("name"@, json_of_string(function.name@))]);
            }
            let mut entries: Vec<(String, serde_json::Value)> = Vec::new();
            proof {
                assert(entry_views(entries@) =~= Seq::empty());
            }
            put(&mut entries, "type", string(choice_type.as_str()));
            put(&mut entries, "function", object(inner));
            proof {
                assert(entry_views(entries@) =~= seq![
                    ("type"@, json_of_string(choice_type@)),
                    ("function"@, json_of_object(seq![("name"@, json_of_string(function.name@))])),
                ]);
            }
            object(entries)
        },
    }
}

/// A temperature as a decimal numeral with three places.
pub fn format_temperature(temperature: Temperature) -> (r: String)
    ensures
        r@ == temperature_text(temperature),
{
    let whole = temperature.thousandths / 1000;
    let rest = temperature.thousandths % 1000;
    let mut out = u64_to_string(whole as u64);
    out.append(".");
    out.append(u64_to_string((rest / 100) as u64).as_str());
    out.append(u64_to_string(((rest / 10) % 10) as u64).as_str());
    out.append(u64_to_string((rest % 10) as u64).as_str());
    out
}

/// A request as JSON.
pub fn encode_request(request: &OpenAiRequest) -> (r: serde_json::Value)
    ensures
        r == request_json(request.deep_view()),
{
    let mut messages: Vec<serde_json::Value> = Vec::new();
    let mut i: usize = 0;
    while i < request.messages.len()
        invariant
            0 <= i <= request.messages.len(),
            messages@ == request.messages.deep_view().take(i as int).map_values(
                |m: OpenAiMessageView| message_json(m),
            ),
        decreases request.messages.len() - i,
    {
        messages.push(encode_message(&request.messages[i]));
        proof {
            assert(messages@ =~= request.messages.deep_view().take(i + 1).map_values(
                |m: OpenAiMessageView| message_json(m),
            ));
        }
        i += 1;
    }
    proof {
        assert(request.messages.deep_view().take(request.messages.len() as int)
            =~= request.messages.deep_view());
    }
    let tools = match &request.tools {
        Some(tools) => {
            let mut values: Vec<serde_json::Value> = Vec::new();
            let mut k: usize = 0;
            while k < tools.len()
                invariant
                    0 <= k <= tools.len(),
                    values@ == tools.deep_view().take(k as int).map_values(
                        |t: OpenAiToolView| tool_json(t),
                    ),
                decreases tools.len() - k,
            {
                values.push(encode_tool(&tools[k]));
                proof {
                    assert(values@ =~= tools.deep_view().take(k + 1).map_values(
                        |t: OpenAiToolView| tool_json(t),
                    ));
                }
                k += 1;
            }
            proof {
                assert(tools.deep_view().take(tools.len() as int) =~= tools.deep_view());
            }
            Some(array(values))
        },
        None => None,
    };
    let mut entries: Vec<(String, serde_json::Value)> = Vec::new();
    proof {
        assert(entry_views(entries@) =~= Seq::empty());
    }
    put(&mut entries, "model", string(request.model.as_str()));
    put(&mut entries, "messages", array(messages));
    proof {
        assert(entry_views(entries@) =~= seq![("model"@, json_of_string(request.model@))].push(
            (
                "messages"@,
                json_of_array(
                    request.messages.deep_view().map_values(|m: OpenAiMessageView| message_json(m)),
                ),
            ),
        ));
    }
    let max_tokens = match request.max_tokens {
        Some(n) => Some(number(n as u64)),
        None => None,
    };
    put_optional(&mut entries, "max_tokens", max_tokens);
    let max_completion_tokens = match request.max_completion_tokens {
        Some(n) => Some(number(n as u64)),
        None => None,
    };
    put_optional(&mut entries, "max_completion_tokens", max_completion_tokens);
    let temperature = match request.temperature {
        Some(t) => parse(format_temperature(t).as_str()),
        None => None,
    };
    put_optional(&mut entries, "temperature", temperature);
    put_optional(&mut entries, "tools", tools);
    let tool_choice = match &request.tool_choice {
        Some(choice) => Some(encode_tool_choice(choice)),
        None => None,
    };
    put_optional(&mut entries, "tool_choice", tool_choice);
    let stream = match request.stream {
        Some(b) => Some(boolean(b)),
        None => None,
    };
    put_optional(&mut entries, "stream", stream);
    let stream_options = match request.stream_options {
        Some(options) => {
            let mut inner: Vec<(String, serde_json::Value)> = Vec::new();
            proof {
                assert(entry_views(inner@) =~= Seq::empty());
            }
            put(&mut inner, "include_usage", boolean(options.include_usage));
            proof {
                assert(entry_views(inner@) =~= seq![
                    ("include_usage"@, json_of_bool(options.include_usage)),
                ]);
            }
            Some(object(inner))
        },
        None => None,
    };
    put_optional(&mut entries, "stream_options", stream_options);
    object(entries)
}

/// The body of a request: its JSON, printed.
pub fn request_body(request: &OpenAiRequest) -> (r: String)
    ensures
        r@ == request_text(request.deep_view()),
{
    to_text(&encode_request(request))
}

} // verus!

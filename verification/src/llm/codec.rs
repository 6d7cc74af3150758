//! Messages as JSON, for keeping a conversation.
//!
//! A message is an object with its role and its content. Content is a
//! string, or an array of blocks; each block is an object whose `type` names
//! its kind. The order of the blocks and the kind of each are kept.

use vstd::prelude::*;
use crate::json::{
    array, as_elements, as_string, boolean, entry_views, get_member, get_optional_bool,
    get_optional_str, get_present, get_str, is_object, json_elements, json_is_object, json_member,
    json_null, json_of_array, json_of_bool, json_of_object, json_of_string, json_parsed, json_string,
    member_of, object,
    optional_bool_member, optional_string_member, parse, present_member, put, string,
    string_member, text_or_empty, to_text,
};
use crate::llm::openai_wire::{put_optional, with_member};
use crate::llm::types::{
    lemma_deep_view_push, ContentBlock, ContentBlockView, Message, MessageContent,
    MessageContentView, MessageView, Role,
};
use crate::text::str_eq;

verus! {

/// The source of an image or a document as JSON: base64 data and its media
/// type.
pub open spec fn source_json(data: Seq<char>, media_type: Seq<char>) -> serde_json::Value {
    json_of_object(
        seq![
            ("type"@, json_of_string("base64"@)),
            ("media_type"@, json_of_string(media_type)),
            ("data"@, json_of_string(data)),
        ],
    )
}

/// A block as JSON.
pub open spec fn block_json(block: ContentBlockView) -> serde_json::Value {
    match block {
        ContentBlockView::Text { text } => json_of_object(
            seq![("type"@, json_of_string("text"@)), ("text"@, json_of_string(text))],
        ),
        ContentBlockView::ToolUse { id, name, input } => json_of_object(
            seq![
                ("type"@, json_of_string("tool_use"@)),
                ("id"@, json_of_string(id)),
                ("name"@, json_of_string(name)),
                ("input"@, input),
            ],
        ),
        ContentBlockView::ToolResult { tool_use_id, content, is_error } => json_of_object(
            with_member(
                with_member(
                    seq![
                        ("type"@, json_of_string("tool_result"@)),
                        ("tool_use_id"@, json_of_string(tool_use_id)),
                    ],
                    "content"@,
                    match content {
                        Some(c) => Some(json_of_string(c)),
                        None => None,
                    },
                ),
                "is_error"@,
                match is_error {
                    Some(b) => Some(json_of_bool(b)),
                    None => None,
                },
            ),
        ),
        ContentBlockView::Thinking { text } => json_of_object(
            seq![("type"@, json_of_string("thinking"@)), ("thinking"@, json_of_string(text))],
        ),
        ContentBlockView::RedactedThinking => json_of_object(
            seq![("type"@, json_of_string("redacted_thinking"@))],
        ),
        ContentBlockView::Image { data, media_type } => json_of_object(
            seq![("type"@, json_of_string("image"@)), ("source"@, source_json(data, media_type))],
        ),
        ContentBlockView::Document { data, media_type } => json_of_object(
            seq![("type"@, json_of_string("document"@)), ("source"@, source_json(data, media_type))],
        ),
    }
}

/// The content of a message as JSON: a string, or an array of blocks.
pub open spec fn content_json(content: MessageContentView) -> serde_json::Value {
    match content {
        MessageContentView::Text(text) => json_of_string(text),
        MessageContentView::Blocks(blocks) => json_of_array(
            blocks.map_values(|b: ContentBlockView| block_json(b)),
        ),
    }
}

/// A message as JSON.
pub open spec fn message_json(message: MessageView) -> serde_json::Value {
    json_of_object(
        seq![
            ("role"@, json_of_string(message.role.name())),
            ("content"@, content_json(message.content)),
        ],
    )
}

/// The record of a message in a history: its JSON, printed.
pub open spec fn message_record(message: MessageView) -> Seq<char> {
    text_or_empty(message_json(message))
}

/// The data and the media type that a source describes.
pub open spec fn source_of_json(value: serde_json::Value) -> Option<(Seq<char>, Seq<char>)> {
    match (string_member(value, "data"@), string_member(value, "media_type"@)) {
        (Some(data), Some(media_type)) => if json_is_object(value) {
            Some((data, media_type))
        } else {
            None
        },
        _ => None,
    }
}

/// The block that a JSON value describes.
pub open spec fn block_of_json(value: serde_json::Value) -> Option<ContentBlockView> {
    match string_member(value, "type"@) {
        None => None,
        Some(kind) => if !json_is_object(value) {
            None
        } else if kind == "text"@ {
            match string_member(value, "text"@) {
                Some(text) => Some(ContentBlockView::Text { text }),
                None => None,
            }
        } else if kind == "tool_use"@ {
            match (string_member(value, "id"@), string_member(value, "name"@), json_member(
                value,
                "input"@,
            )) {
                (Some(id), Some(name), Some(input)) => Some(
                    ContentBlockView::ToolUse { id, name, input },
                ),
                _ => None,
            }
        } else if kind == "tool_result"@ {
            match (
                string_member(value, "tool_use_id"@),
                optional_string_member(value, "content"@),
                optional_bool_member(value, "is_error"@),
            ) {
                (Some(tool_use_id), Some(content), Some(is_error)) => Some(
                    ContentBlockView::ToolResult { tool_use_id, content, is_error },
                ),
                _ => None,
            }
        } else if kind == "thinking"@ {
            match string_member(value, "thinking"@) {
                Some(text) => Some(ContentBlockView::Thinking { text }),
                None => None,
            }
        } else if kind == "redacted_thinking"@ {
            Some(ContentBlockView::RedactedThinking)
        } else if kind == "image"@ {
            match present_member(value, "source"@) {
                Some(source) => match source_of_json(source) {
                    Some(s) => Some(ContentBlockView::Image { data: s.0, media_type: s.1 }),
                    None => None,
                },
                None => None,
            }
        } else if kind == "document"@ {
            match present_member(value, "source"@) {
                Some(source) => match source_of_json(source) {
                    Some(s) => Some(ContentBlockView::Document { data: s.0, media_type: s.1 }),
                    None => None,
                },
                None => None,
            }
        } else {
            None
        },
    }
}

/// The blocks that JSON values describe, if each describes one.
pub open spec fn blocks_of_json(values: Seq<serde_json::Value>) -> Option<Seq<ContentBlockView>>
    decreases values.len(),
{
    if values.len() == 0 {
        Some(Seq::empty())
    } else {
        match (blocks_of_json(values.drop_last()), block_of_json(values.last())) {
            (Some(rest), Some(block)) => Some(rest.push(block)),
            _ => None,
        }
    }
}

/// The role that a name stands for.
pub open spec fn role_of(name: Seq<char>) -> Option<Role> {
    if name == "user"@ {
        Some(Role::User)
    } else if name == "assistant"@ {
        Some(Role::Assistant)
    } else {
        None
    }
}

/// The content that a JSON value describes: a string is text, an array is
/// blocks.
pub open spec fn content_of_json(value: serde_json::Value) -> Option<MessageContentView> {
    match json_string(value) {
        Some(text) => Some(MessageContentView::Text(text)),
        None => match json_elements(value) {
            Some(values) => match blocks_of_json(values) {
                Some(blocks) => Some(MessageContentView::Blocks(blocks)),
                None => None,
            },
            None => None,
        },
    }
}

/// The message that a JSON value describes.
pub open spec fn message_of_json(value: serde_json::Value) -> Option<MessageView> {
    match (string_member(value, "role"@), json_member(value, "content"@)) {
        (Some(name), Some(c)) => match (role_of(name), content_of_json(c)) {
            (Some(role), Some(content)) => if json_is_object(value) {
                Some(MessageView { role, content })
            } else {
                None
            },
            _ => None,
        },
        _ => None,
    }
}

/// The message that a record of a history describes.
pub open spec fn message_of_record(record: Seq<char>) -> Option<MessageView> {
    match json_parsed(record) {
        Some(value) => message_of_json(value),
        None => None,
    }
}

/// The messages that the records of a history describe, if each describes
/// one.
pub open spec fn messages_of_records(records: Seq<Seq<char>>) -> Option<Seq<MessageView>>
    decreases records.len(),
{
    if records.len() == 0 {
        Some(Seq::empty())
    } else {
        match (messages_of_records(records.drop_last()), message_of_record(records.last())) {
            (Some(rest), Some(message)) => Some(rest.push(message)),
            _ => None,
        }
    }
}

/// Where the first values describe no blocks, the whole does not either.
pub proof fn lemma_blocks_prefix(values: Seq<serde_json::Value>, n: int)
    requires
        0 <= n <= values.len(),
        blocks_of_json(values.take(n)) is None,
    ensures
        blocks_of_json(values) is None,
    decreases values.len() - n,
{
    if n < values.len() {
        assert(values.take(n + 1).drop_last() =~= values.take(n));
        lemma_blocks_prefix(values, n + 1);
    } else {
        assert(values.take(n) =~= values);
    }
}

/// Where the first records describe no messages, the whole does not either.
pub proof fn lemma_records_prefix(records: Seq<Seq<char>>, n: int)
    requires
        0 <= n <= records.len(),
        messages_of_records(records.take(n)) is None,
    ensures
        messages_of_records(records) is None,
    decreases records.len() - n,
{
    if n < records.len() {
        assert(records.take(n + 1).drop_last() =~= records.take(n));
        lemma_records_prefix(records, n + 1);
    } else {
        assert(records.take(n) =~= records);
    }
}

/// The words of the format differ from one another.
pub proof fn lemma_words_differ()
    ensures
        "type"@ != "text"@,
        "type"@ != "tool_use"@,
        "type"@ != "tool_result"@,
        "type"@ != "thinking"@,
        "type"@ != "redacted_thinking"@,
        "type"@ != "image"@,
        "type"@ != "document"@,
        "type"@ != "id"@,
        "type"@ != "name"@,
        "type"@ != "input"@,
        "type"@ != "tool_use_id"@,
        "type"@ != "content"@,
        "type"@ != "is_error"@,
        "type"@ != "source"@,
        "type"@ != "media_type"@,
        "type"@ != "data"@,
        "type"@ != "role"@,
        "type"@ != "user"@,
        "type"@ != "assistant"@,
        "type"@ != "base64"@,
        "text"@ != "tool_use"@,
        "text"@ != "tool_result"@,
        "text"@ != "thinking"@,
        "text"@ != "redacted_thinking"@,
        "text"@ != "image"@,
        "text"@ != "document"@,
        "text"@ != "id"@,
        "text"@ != "name"@,
        "text"@ != "input"@,
        "text"@ != "tool_use_id"@,
        "text"@ != "content"@,
        "text"@ != "is_error"@,
        "text"@ != "source"@,
        "text"@ != "media_type"@,
        "text"@ != "data"@,
        "text"@ != "role"@,
        "text"@ != "user"@,
        "text"@ != "assistant"@,
        "text"@ != "base64"@,
        "tool_use"@ != "tool_result"@,
        "tool_use"@ != "thinking"@,
        "tool_use"@ != "redacted_thinking"@,
        "tool_use"@ != "image"@,
        "tool_use"@ != "document"@,
        "tool_use"@ != "id"@,
        "tool_use"@ != "name"@,
        "tool_use"@ != "input"@,
        "tool_use"@ != "tool_use_id"@,
        "tool_use"@ != "content"@,
        "tool_use"@ != "is_error"@,
        "tool_use"@ != "source"@,
        "tool_use"@ != "media_type"@,
        "tool_use"@ != "data"@,
        "tool_use"@ != "role"@,
        "tool_use"@ != "user"@,
        "tool_use"@ != "assistant"@,
        "tool_use"@ != "base64"@,
        "tool_result"@ != "thinking"@,
        "tool_result"@ != "redacted_thinking"@,
        "tool_result"@ != "image"@,
        "tool_result"@ != "document"@,
        "tool_result"@ != "id"@,
        "tool_result"@ != "name"@,
        "tool_result"@ != "input"@,
        "tool_result"@ != "tool_use_id"@,
        "tool_result"@ != "content"@,
        "tool_result"@ != "is_error"@,
        "tool_result"@ != "source"@,
        "tool_result"@ != "media_type"@,
        "tool_result"@ != "data"@,
        "tool_result"@ != "role"@,
        "tool_result"@ != "user"@,
        "tool_result"@ != "assistant"@,
        "tool_result"@ != "base64"@,
        "thinking"@ != "redacted_thinking"@,
        "thinking"@ != "image"@,
        "thinking"@ != "document"@,
        "thinking"@ != "id"@,
        "thinking"@ != "name"@,
        "thinking"@ != "input"@,
        "thinking"@ != "tool_use_id"@,
        "thinking"@ != "content"@,
        "thinking"@ != "is_error"@,
        "thinking"@ != "source"@,
        "thinking"@ != "media_type"@,
        "thinking"@ != "data"@,
        "thinking"@ != "role"@,
        "thinking"@ != "user"@,
        "thinking"@ != "assistant"@,
        "thinking"@ != "base64"@,
        "redacted_thinking"@ != "image"@,
        "redacted_thinking"@ != "document"@,
        "redacted_thinking"@ != "id"@,
        "redacted_thinking"@ != "name"@,
        "redacted_thinking"@ != "input"@,
        "redacted_thinking"@ != "tool_use_id"@,
        "redacted_thinking"@ != "content"@,
        "redacted_thinking"@ != "is_error"@,
        "redacted_thinking"@ != "source"@,
        "redacted_thinking"@ != "media_type"@,
        "redacted_thinking"@ != "data"@,
        "redacted_thinking"@ != "role"@,
        "redacted_thinking"@ != "user"@,
        "redacted_thinking"@ != "assistant"@,
        "redacted_thinking"@ != "base64"@,
        "image"@ != "document"@,
        "image"@ != "id"@,
        "image"@ != "name"@,
        "image"@ != "input"@,
        "image"@ != "tool_use_id"@,
        "image"@ != "content"@,
        "image"@ != "is_error"@,
        "image"@ != "source"@,
        "image"@ != "media_type"@,
        "image"@ != "data"@,
        "image"@ != "role"@,
        "image"@ != "user"@,
        "image"@ != "assistant"@,
        "image"@ != "base64"@,
        "document"@ != "id"@,
        "document"@ != "name"@,
        "document"@ != "input"@,
        "document"@ != "tool_use_id"@,
        "document"@ != "content"@,
        "document"@ != "is_error"@,
        "document"@ != "source"@,
        "document"@ != "media_type"@,
        "document"@ != "data"@,
        "document"@ != "role"@,
        "document"@ != "user"@,
        "document"@ != "assistant"@,
        "document"@ != "base64"@,
        "id"@ != "name"@,
        "id"@ != "input"@,
        "id"@ != "tool_use_id"@,
        "id"@ != "content"@,
        "id"@ != "is_error"@,
        "id"@ != "source"@,
        "id"@ != "media_type"@,
        "id"@ != "data"@,
        "id"@ != "role"@,
        "id"@ != "user"@,
        "id"@ != "assistant"@,
        "id"@ != "base64"@,
        "name"@ != "input"@,
        "name"@ != "tool_use_id"@,
        "name"@ != "content"@,
        "name"@ != "is_error"@,
        "name"@ != "source"@,
        "name"@ != "media_type"@,
        "name"@ != "data"@,
        "name"@ != "role"@,
        "name"@ != "user"@,
        "name"@ != "assistant"@,
        "name"@ != "base64"@,
        "input"@ != "tool_use_id"@,
        "input"@ != "content"@,
        "input"@ != "is_error"@,
        "input"@ != "source"@,
        "input"@ != "media_type"@,
        "input"@ != "data"@,
        "input"@ != "role"@,
        "input"@ != "user"@,
        "input"@ != "assistant"@,
        "input"@ != "base64"@,
        "tool_use_id"@ != "content"@,
        "tool_use_id"@ != "is_error"@,
        "tool_use_id"@ != "source"@,
        "tool_use_id"@ != "media_type"@,
        "tool_use_id"@ != "data"@,
        "tool_use_id"@ != "role"@,
        "tool_use_id"@ != "user"@,
        "tool_use_id"@ != "assistant"@,
        "tool_use_id"@ != "base64"@,
        "content"@ != "is_error"@,
        "content"@ != "source"@,
        "content"@ != "media_type"@,
        "content"@ != "data"@,
        "content"@ != "role"@,
        "content"@ != "user"@,
        "content"@ != "assistant"@,
        "content"@ != "base64"@,
        "is_error"@ != "source"@,
        "is_error"@ != "media_type"@,
        "is_error"@ != "data"@,
        "is_error"@ != "role"@,
        "is_error"@ != "user"@,
        "is_error"@ != "assistant"@,
        "is_error"@ != "base64"@,
        "source"@ != "media_type"@,
        "source"@ != "data"@,
        "source"@ != "role"@,
        "source"@ != "user"@,
        "source"@ != "assistant"@,
        "source"@ != "base64"@,
        "media_type"@ != "data"@,
        "media_type"@ != "role"@,
        "media_type"@ != "user"@,
        "media_type"@ != "assistant"@,
        "media_type"@ != "base64"@,
        "data"@ != "role"@,
        "data"@ != "user"@,
        "data"@ != "assistant"@,
        "data"@ != "base64"@,
        "role"@ != "user"@,
        "role"@ != "assistant"@,
        "role"@ != "base64"@,
        "user"@ != "assistant"@,
        "user"@ != "base64"@,
        "assistant"@ != "base64"@,
{
    reveal_strlit("type");
    reveal_strlit("text");
    reveal_strlit("tool_use");
    reveal_strlit("tool_result");
    reveal_strlit("thinking");
    reveal_strlit("redacted_thinking");
    reveal_strlit("image");
    reveal_strlit("document");
    reveal_strlit("id");
    reveal_strlit("name");
    reveal_strlit("input");
    reveal_strlit("tool_use_id");
    reveal_strlit("content");
    reveal_strlit("is_error");
    reveal_strlit("source");
    reveal_strlit("media_type");
    reveal_strlit("data");
    reveal_strlit("role");
    reveal_strlit("user");
    reveal_strlit("assistant");
    reveal_strlit("base64");
    assert("type"@.len() == 4);
    assert("text"@.len() == 4);
    assert("tool_use"@.len() == 8);
    assert("tool_result"@.len() == 11);
    assert("thinking"@.len() == 8);
    assert("redacted_thinking"@.len() == 17);
    assert("image"@.len() == 5);
    assert("document"@.len() == 8);
    assert("id"@.len() == 2);
    assert("name"@.len() == 4);
    assert("input"@.len() == 5);
    assert("tool_use_id"@.len() == 11);
    assert("content"@.len() == 7);
    assert("is_error"@.len() == 8);
    assert("source"@.len() == 6);
    assert("media_type"@.len() == 10);
    assert("data"@.len() == 4);
    assert("role"@.len() == 4);
    assert("user"@.len() == 4);
    assert("assistant"@.len() == 9);
    assert("base64"@.len() == 6);
    assert("type"@[0] == 't');
    assert("type"@[1] == 'y');
    assert("text"@[0] == 't');
    assert("text"@[1] == 'e');
    assert("tool_use"@[0] == 't');
    assert("tool_use"@[1] == 'o');
    assert("tool_result"@[5] == 'r');
    assert("thinking"@[0] == 't');
    assert("thinking"@[1] == 'h');
    assert("image"@[1] == 'm');
    assert("document"@[0] == 'd');
    assert("name"@[0] == 'n');
    assert("input"@[1] == 'n');
    assert("tool_use_id"@[5] == 'u');
    assert("is_error"@[0] == 'i');
    assert("source"@[0] == 's');
    assert("data"@[0] == 'd');
    assert("role"@[0] == 'r');
    assert("user"@[0] == 'u');
    assert("base64"@[0] == 'b');
}

fn encode_source(data: &str, media_type: &str) -> (r: serde_json::Value)
    ensures
        r == source_json(data@, media_type@),
        source_of_json(r) == Some((data@, media_type@)),
        !json_null(r),
{
    let mut entries: Vec<(String, serde_json::Value)> = Vec::new();
    proof {
        assert(entry_views(entries@) =~= Seq::empty());
    }
    put(&mut entries, "type", string("base64"));
    put(&mut entries, "media_type", string(media_type));
    put(&mut entries, "data", string(data));
    proof {
        assert(entry_views(entries@) =~= seq![
            ("type"@, json_of_string("base64"@)),
            ("media_type"@, json_of_string(media_type@)),
            ("data"@, json_of_string(data@)),
        ]);
    }
    let r = object(entries);
    proof {
        lemma_words_differ();
        reveal_with_fuel(member_of, 4);
        assert(json_member(r, "data"@) == Some(json_of_string(data@)));
        assert(json_member(r, "media_type"@) == Some(json_of_string(media_type@)));
    }
    r
}

/// A block as JSON. Reading the result gives the block back.
pub fn encode_block(block: &ContentBlock) -> (r: serde_json::Value)
    ensures
        r == block_json(block.deep_view()),
        block_of_json(r) == Some(block.deep_view()),
{
    let mut entries: Vec<(String, serde_json::Value)> = Vec::new();
    proof {
        assert(entry_views(entries@) =~= Seq::empty());
    }
    match block {
        ContentBlock::Text { text } => {
            put(&mut entries, "type", string("text"));
            put(&mut entries, "text", string(text.as_str()));
            proof {
                assert(entry_views(entries@) =~= seq![
                    ("type"@, json_of_string("text"@)),
                    ("text"@, json_of_string(text@)),
                ]);
            }
        },
        ContentBlock::ToolUse { id, name, input } => {
            put(&mut entries, "type", string("tool_use"));
            put(&mut entries, "id", string(id.as_str()));
            put(&mut entries, "name", string(name.as_str()));
            put(&mut entries, "input", input.clone());
            proof {
                assert(entry_views(entries@) =~= seq![
                    ("type"@, json_of_string("tool_use"@)),
                    ("id"@, json_of_string(id@)),
                    ("name"@, json_of_string(name@)),
                    ("input"@, *input),
                ]);
            }
        },
        ContentBlock::ToolResult { tool_use_id, content, is_error } => {
            put(&mut entries, "type", string("tool_result"));
            put(&mut entries, "tool_use_id", string(tool_use_id.as_str()));
            proof {
                assert(entry_views(entries@) =~= seq![
                    ("type"@, json_of_string("tool_result"@)),
                    ("tool_use_id"@, json_of_string(tool_use_id@)),
                ]);
            }
            let shown = match content {
                Some(c) => Some(string(c.as_str())),
                None => None,
            };
            put_optional(&mut entries, "content", shown);
            let flag = match is_error {
                Some(b) => Some(boolean(*b)),
                None => None,
            };
            put_optional(&mut entries, "is_error", flag);
        },
        ContentBlock::Thinking { text } => {
            put(&mut entries, "type", string("thinking"));
            put(&mut entries, "thinking", string(text.as_str()));
            proof {
                assert(entry_views(entries@) =~= seq![
                    ("type"@, json_of_string("thinking"@)),
                    ("thinking"@, json_of_string(text@)),
                ]);
            }
        },
        ContentBlock::RedactedThinking => {
            put(&mut entries, "type", string("redacted_thinking"));
            proof {
                assert(entry_views(entries@) =~= seq![
                    ("type"@, json_of_string("redacted_thinking"@)),
                ]);
            }
        },
        ContentBlock::Image { data, media_type } => {
            put(&mut entries, "type", string("image"));
            put(&mut entries, "source", encode_source(data.as_str(), media_type.as_str()));
            proof {
                assert(entry_views(entries@) =~= seq![
                    ("type"@, json_of_string("image"@)),
                    ("source"@, source_json(data@, media_type@)),
                ]);
            }
        },
        ContentBlock::Document { data, media_type } => {
            put(&mut entries, "type", string("document"));
            put(&mut entries, "source", encode_source(data.as_str(), media_type.as_str()));
            proof {
                assert(entry_views(entries@) =~= seq![
                    ("type"@, json_of_string("document"@)),
                    ("source"@, source_json(data@, media_type@)),
                ]);
            }
        },
    }
    let ghost members = entry_views(entries@);
    let r = object(entries);
    proof {
        lemma_words_differ();
        reveal_with_fuel(member_of, 5);
        assert(json_member(r, "type"@) == member_of(members, "type"@));
        match block {
            ContentBlock::Text { text } => {
                assert(json_member(r, "text"@) == member_of(members, "text"@));
            },
            ContentBlock::ToolUse { id, name, input } => {
                assert(json_member(r, "id"@) == member_of(members, "id"@));
                assert(json_member(r, "name"@) == member_of(members, "name"@));
                assert(json_member(r, "input"@) == member_of(members, "input"@));
            },
            ContentBlock::ToolResult { tool_use_id, content, is_error } => {
                assert(json_member(r, "tool_use_id"@) == member_of(members, "tool_use_id"@));
                assert(json_member(r, "content"@) == member_of(members, "content"@));
                assert(json_member(r, "is_error"@) == member_of(members, "is_error"@));
            },
            ContentBlock::Thinking { text } => {
                assert(json_member(r, "thinking"@) == member_of(members, "thinking"@));
            },
            ContentBlock::RedactedThinking => {},
            ContentBlock::Image { data, media_type } => {
                assert(json_member(r, "source"@) == member_of(members, "source"@));
            },
            ContentBlock::Document { data, media_type } => {
                assert(json_member(r, "source"@) == member_of(members, "source"@));
            },
        }
    }
    r
}

/// A message as JSON. Reading the result gives the message back: its role,
/// and its content with every block of its kind and in its place.
pub fn encode_message(message: &Message) -> (r: serde_json::Value)
    ensures
        r == message_json(message.deep_view()),
        message_of_json(r) == Some(message.deep_view()),
{
    let content = match &message.content {
        MessageContent::Text(text) => string(text.as_str()),
        MessageContent::Blocks(blocks) => {
            let mut values: Vec<serde_json::Value> = Vec::new();
            let mut i: usize = 0;
            while i < blocks.len()
                invariant
                    0 <= i <= blocks.len(),
                    values@ == blocks.deep_view().take(i as int).map_values(
                        |b: ContentBlockView| block_json(b),
                    ),
                    blocks_of_json(values@) == Some(blocks.deep_view().take(i as int)),
                decreases blocks.len() - i,
            {
                let ghost before = values@;
                values.push(encode_block(&blocks[i]));
                proof {
                    assert(values@ =~= blocks.deep_view().take(i + 1).map_values(
                        |b: ContentBlockView| block_json(b),
                    ));
                    assert(values@.drop_last() =~= before);
                    assert(blocks.deep_view().take(i + 1) =~= blocks.deep_view().take(i as int).push(
                        blocks[i as int].deep_view(),
                    ));
                }
                i += 1;
            }
            proof {
                assert(blocks.deep_view().take(blocks.len() as int) =~= blocks.deep_view());
            }
            array(values)
        },
    };
    proof {
        assert(content == content_json(message.deep_view().content));
        assert(content_of_json(content) == Some(message.deep_view().content));
    }
    let mut entries: Vec<(String, serde_json::Value)> = Vec::new();
    proof {
        assert(entry_views(entries@) =~= Seq::empty());
    }
    put(&mut entries, "role", string(message.role.as_str()));
    put(&mut entries, "content", content);
    proof {
        assert(entry_views(entries@) =~= seq![
            ("role"@, json_of_string(message.role.name())),
            ("content"@, content),
        ]);
        assert(message_json(message.deep_view()) == json_of_object(
            seq![
                ("role"@, json_of_string(message.deep_view().role.name())),
                ("content"@, content_json(message.deep_view().content)),
            ],
        ));
    }
    let ghost members = entry_views(entries@);
    let r = object(entries);
    proof {
        lemma_words_differ();
        reveal_with_fuel(member_of, 3);
        assert(json_member(r, "role"@) == member_of(members, "role"@));
        assert(json_member(r, "content"@) == member_of(members, "content"@));
    }
    r
}

/// The record of a message in a history.
pub fn message_to_record(message: &Message) -> (r: String)
    ensures
        r@ == message_record(message.deep_view()),
{
    to_text(&encode_message(message))
}

fn decode_source(value: &serde_json::Value) -> (r: Option<(String, String)>)
    ensures
        match r {
            Some(source) => source_of_json(*value) == Some((source.0@, source.1@)),
            None => source_of_json(*value) is None,
        },
{
    match (get_str(value, "data"), get_str(value, "media_type")) {
        (Some(data), Some(media_type)) => {
            if is_object(value) {
                Some((data, media_type))
            } else {
                None
            }
        },
        _ => None,
    }
}

/// Reads a block from a JSON value.
pub fn decode_block(value: &serde_json::Value) -> (r: Option<ContentBlock>)
    ensures
        r.deep_view() == block_of_json(*value),
{
    let kind = match get_str(value, "type") {
        Some(kind) => kind,
        None => {
            return None;
        },
    };
    if !is_object(value) {
        return None;
    }
    if str_eq(kind.as_str(), "text") {
        match get_str(value, "text") {
            Some(text) => Some(ContentBlock::Text { text }),
            None => None,
        }
    } else if str_eq(kind.as_str(), "tool_use") {
        match (get_str(value, "id"), get_str(value, "name"), get_member(value, "input")) {
            (Some(id), Some(name), Some(input)) => Some(ContentBlock::ToolUse { id, name, input }),
            _ => None,
        }
    } else if str_eq(kind.as_str(), "tool_result") {
        match (
            get_str(value, "tool_use_id"),
            get_optional_str(value, "content"),
            get_optional_bool(value, "is_error"),
        ) {
            (Some(tool_use_id), Ok(content), Ok(is_error)) => Some(
                ContentBlock::ToolResult { tool_use_id, content, is_error },
            ),
            _ => None,
        }
    } else if str_eq(kind.as_str(), "thinking") {
        match get_str(value, "thinking") {
            Some(text) => Some(ContentBlock::Thinking { text }),
            None => None,
        }
    } else if str_eq(kind.as_str(), "redacted_thinking") {
        Some(ContentBlock::RedactedThinking)
    } else if str_eq(kind.as_str(), "image") {
        match get_present(value, "source") {
            Some(source) => match decode_source(&source) {
                Some((data, media_type)) => Some(ContentBlock::Image { data, media_type }),
                None => None,
            },
            None => None,
        }
    } else if str_eq(kind.as_str(), "document") {
        match get_present(value, "source") {
            Some(source) => match decode_source(&source) {
                Some((data, media_type)) => Some(ContentBlock::Document { data, media_type }),
                None => None,
            },
            None => None,
        }
    } else {
        None
    }
}

/// Reads blocks from JSON values.
pub fn decode_blocks(values: &Vec<serde_json::Value>) -> (r: Option<Vec<ContentBlock>>)
    ensures
        r.deep_view() == blocks_of_json(values@),
{
    let mut out: Vec<ContentBlock> = Vec::new();
    let mut i: usize = 0;
    proof {
        assert(out.deep_view() =~= Seq::empty());
    }
    while i < values.len()
        invariant
            0 <= i <= values.len(),
            blocks_of_json(values@.take(i as int)) == Some(out.deep_view()),
        decreases values.len() - i,
    {
        proof {
            let next = values@.take(i + 1);
            assert(next.drop_last() =~= values@.take(i as int));
            assert(next.last() == values[i as int]);
        }
        match decode_block(&values[i]) {
            Some(block) => {
                let ghost before = out;
                out.push(block);
                proof {
                    lemma_deep_view_push(before, out, out[out.len() - 1]);
                }
            },
            None => {
                proof {
                    lemma_blocks_prefix(values@, i + 1);
                }
                return None;
            },
        }
        i += 1;
    }
    proof {
        assert(values@.take(values.len() as int) =~= values@);
    }
    Some(out)
}

/// Reads a message from a JSON value.
pub fn decode_message(value: &serde_json::Value) -> (r: Option<Message>)
    ensures
        r.deep_view() == message_of_json(*value),
{
    let name = match get_str(value, "role") {
        Some(name) => name,
        None => {
            return None;
        },
    };
    let c = match get_member(value, "content") {
        Some(c) => c,
        None => {
            return None;
        },
    };
    let role = if str_eq(name.as_str(), "user") {
        Role::User
    } else if str_eq(name.as_str(), "assistant") {
        Role::Assistant
    } else {
        return None;
    };
    let content = match as_string(&c) {
        Some(text) => MessageContent::Text(text),
        None => match as_elements(&c) {
            Some(values) => match decode_blocks(&values) {
                Some(blocks) => MessageContent::Blocks(blocks),
                None => {
                    return None;
                },
            },
            None => {
                return None;
            },
        },
    };
    if !is_object(value) {
        return None;
    }
    Some(Message { role, content })
}

/// Reads a message from a record of a history.
pub fn message_from_record(record: &str) -> (r: Option<Message>)
    ensures
        r.deep_view() == message_of_record(record@),
{
    match parse(record) {
        Some(value) => decode_message(&value),
        None => None,
    }
}

/// Reads the messages of a history from its records. One record that
/// describes no message fails the whole.
pub fn messages_from_records(records: &Vec<String>) -> (r: Option<Vec<Message>>)
    ensures
        r.deep_view() == messages_of_records(records.deep_view()),
{
    let mut out: Vec<Message> = Vec::new();
    let mut i: usize = 0;
    proof {
        assert(out.deep_view() =~= Seq::empty());
    }
    while i < records.len()
        invariant
            0 <= i <= records.len(),
            messages_of_records(records.deep_view().take(i as int)) == Some(out.deep_view()),
        decreases records.len() - i,
    {
        proof {
            let next = records.deep_view().take(i + 1);
            assert(next.drop_last() =~= records.deep_view().take(i as int));
            assert(next.last() == records[i as int]@);
        }
        match message_from_record(records[i].as_str()) {
            Some(message) => {
                let ghost before = out;
                out.push(message);
                proof {
                    lemma_deep_view_push(before, out, out[out.len() - 1]);
                }
            },
            None => {
                proof {
                    lemma_records_prefix(records.deep_view(), i + 1);
                }
                return None;
            },
        }
        i += 1;
    }
    proof {
        assert(records.deep_view().take(records.len() as int) =~= records.deep_view());
    }
    Some(out)
}

} // verus!

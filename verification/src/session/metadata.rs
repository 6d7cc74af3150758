//! The metadata document of a session.

use vstd::prelude::*;
use crate::json::{
    array_of_strings, entry_views, get_optional_str, get_optional_strings, get_str, is_object,
    json_is_object, json_member, json_of_object, json_of_string, json_of_strings, json_parsed,
    member_of, object,
    optional_string_member, optional_strings_member, parse, put, string, string_member,
    text_or_empty, to_text,
};
use crate::llm::openai_wire::{put_optional, with_member};
use crate::llm::types::{clone_opt_string, clone_strings, lemma_deep_view_push};

verus! {

/// What is known of a session besides its messages.
#[derive(Debug)]
pub struct SessionMetadata {
    pub session_id: String,
    pub agent_type: String,
    pub name: String,
    pub description: String,
    /// When the session was created, as the caller's clock wrote it.
    pub created_at: String,
    /// When the session was last changed.
    pub updated_at: String,
    /// The session that spawned this one, for a sub-agent session.
    pub parent_session_id: Option<String>,
    /// The tool call that spawned this session.
    pub originating_tool_call_id: Option<String>,
    /// The sessions that this one spawned.
    pub child_session_ids: Vec<String>,
}

/// The model of a [`SessionMetadata`].
pub ghost struct SessionMetadataView {
    pub session_id: Seq<char>,
    pub agent_type: Seq<char>,
    pub name: Seq<char>,
    pub description: Seq<char>,
    pub created_at: Seq<char>,
    pub updated_at: Seq<char>,
    pub parent_session_id: Option<Seq<char>>,
    pub originating_tool_call_id: Option<Seq<char>>,
    pub child_session_ids: Seq<Seq<char>>,
}

impl DeepView for SessionMetadata {
    type V = SessionMetadataView;

    open spec fn deep_view(&self) -> SessionMetadataView {
        SessionMetadataView {
            session_id: self.session_id@,
            agent_type: self.agent_type@,
            name: self.name@,
            description: self.description@,
            created_at: self.created_at@,
            updated_at: self.updated_at@,
            parent_session_id: self.parent_session_id.deep_view(),
            originating_tool_call_id: self.originating_tool_call_id.deep_view(),
            child_session_ids: self.child_session_ids.deep_view(),
        }
    }
}

impl SessionMetadataView {
    /// The metadata of a new top-level session, before its times are set.
    pub open spec fn top_level(
        session_id: Seq<char>,
        agent_type: Seq<char>,
        name: Seq<char>,
        description: Seq<char>,
    ) -> SessionMetadataView {
        SessionMetadataView {
            session_id,
            agent_type,
            name,
            description,
            created_at: Seq::empty(),
            updated_at: Seq::empty(),
            parent_session_id: None,
            originating_tool_call_id: None,
            child_session_ids: Seq::empty(),
        }
    }

    /// Whether the session was spawned by another: it has a parent.
    pub open spec fn is_subagent(self) -> bool {
        self.parent_session_id is Some
    }
}

impl Clone for SessionMetadata {
    fn clone(&self) -> (r: Self)
        ensures
            r.deep_view() == self.deep_view(),
    {
        SessionMetadata {
            session_id: self.session_id.clone(),
            agent_type: self.agent_type.clone(),
            name: self.name.clone(),
            description: self.description.clone(),
            created_at: self.created_at.clone(),
            updated_at: self.updated_at.clone(),
            parent_session_id: clone_opt_string(&self.parent_session_id),
            originating_tool_call_id: clone_opt_string(&self.originating_tool_call_id),
            child_session_ids: clone_strings(&self.child_session_ids),
        }
    }
}

impl SessionMetadata {
    /// The metadata of a new top-level session. Its times are empty until
    /// [`SessionMetadata::stamped`] sets them.
    pub fn new(session_id: &str, agent_type: &str, name: &str, description: &str) -> (r:
        SessionMetadata)
        ensures
            r.deep_view() == SessionMetadataView::top_level(
                session_id@,
                agent_type@,
                name@,
                description@,
            ),
    {
        let r = SessionMetadata {
            session_id: session_id.to_string(),
            agent_type: agent_type.to_string(),
            name: name.to_string(),
            description: description.to_string(),
            created_at: String::new(),
            updated_at: String::new(),
            parent_session_id: None,
            originating_tool_call_id: None,
            child_session_ids: Vec::new(),
        };
        proof {
            assert(r.child_session_ids.deep_view() =~= Seq::empty());
        }
        r
    }

    /// The metadata of a new sub-agent session, spawned by the tool call
    /// `tool_call_id` of the session `parent_session_id`.
    pub fn new_subagent(
        session_id: &str,
        agent_type: &str,
        name: &str,
        description: &str,
        parent_session_id: &str,
        tool_call_id: &str,
    ) -> (r: SessionMetadata)
        ensures
            r.deep_view() == (SessionMetadataView {
                parent_session_id: Some(parent_session_id@),
                originating_tool_call_id: Some(tool_call_id@),
                ..SessionMetadataView::top_level(session_id@, agent_type@, name@, description@)
            }),
    {
        let mut r = SessionMetadata::new(session_id, agent_type, name, description);
        r.parent_session_id = Some(parent_session_id.to_string());
        r.originating_tool_call_id = Some(tool_call_id.to_string());
        r
    }

    /// The same metadata, created and last changed at `now`.
    pub fn stamped(self, now: &str) -> (r: SessionMetadata)
        ensures
            r.deep_view() == (SessionMetadataView {
                created_at: now@,
                updated_at: now@,
                ..self.deep_view()
            }),
    {
        let mut r = self;
        r.created_at = now.to_string();
        r.updated_at = now.to_string();
        r
    }

    /// Marks the metadata as changed at `now`.
    pub fn touch(&mut self, now: &str)
        ensures
            final(self).deep_view() == (SessionMetadataView {
                updated_at: now@,
                ..old(self).deep_view()
            }),
    {
        self.updated_at = now.to_string();
    }

    /// Records a session that this one spawned.
    pub fn add_child(&mut self, child_session_id: &str)
        ensures
            final(self).deep_view() == (SessionMetadataView {
                child_session_ids: old(self).deep_view().child_session_ids.push(child_session_id@),
                ..old(self).deep_view()
            }),
    {
        let ghost before = self.child_session_ids;
        self.child_session_ids.push(child_session_id.to_string());
        proof {
            lemma_deep_view_push(
                before,
                self.child_session_ids,
                self.child_session_ids[self.child_session_ids.len() - 1],
            );
        }
    }

    /// Whether the session was spawned by another.
    pub fn is_subagent(&self) -> (r: bool)
        ensures
            r == self.deep_view().is_subagent(),
    {
        self.parent_session_id.is_some()
    }
}

/// The metadata as JSON. Members without a value are left out.
pub open spec fn metadata_json(metadata: SessionMetadataView) -> serde_json::Value {
    let head = seq![
        ("session_id"@, json_of_string(metadata.session_id)),
        ("agent_type"@, json_of_string(metadata.agent_type)),
        ("name"@, json_of_string(metadata.name)),
        ("description"@, json_of_string(metadata.description)),
        ("created_at"@, json_of_string(metadata.created_at)),
        ("updated_at"@, json_of_string(metadata.updated_at)),
    ];
    let parent = with_member(
        head,
        "parent_session_id"@,
        match metadata.parent_session_id {
            Some(p) => Some(json_of_string(p)),
            None => None,
        },
    );
    let origin = with_member(
        parent,
        "originating_tool_call_id"@,
        match metadata.originating_tool_call_id {
            Some(o) => Some(json_of_string(o)),
            None => None,
        },
    );
    json_of_object(
        origin.push(("child_session_ids"@, json_of_strings(metadata.child_session_ids))),
    )
}

/// The metadata document: its JSON, printed.
pub open spec fn metadata_text(metadata: SessionMetadataView) -> Seq<char> {
    text_or_empty(metadata_json(metadata))
}

/// The metadata that a JSON value describes. The parent, the originating
/// tool call and the children may be left out.
pub open spec fn metadata_of_json(value: serde_json::Value) -> Option<SessionMetadataView> {
    match (
        string_member(value, "session_id"@),
        string_member(value, "agent_type"@),
        string_member(value, "name"@),
        string_member(value, "description"@),
        string_member(value, "created_at"@),
        string_member(value, "updated_at"@),
    ) {
        (
            Some(session_id),
            Some(agent_type),
            Some(name),
            Some(description),
            Some(created_at),
            Some(updated_at),
        ) => match (
            optional_string_member(value, "parent_session_id"@),
            optional_string_member(value, "originating_tool_call_id"@),
            optional_strings_member(value, "child_session_ids"@),
        ) {
            (Some(parent_session_id), Some(originating_tool_call_id), Some(children)) => if json_is_object(
                value,
            ) {
                Some(
                    SessionMetadataView {
                        session_id,
                        agent_type,
                        name,
                        description,
                        created_at,
                        updated_at,
                        parent_session_id,
                        originating_tool_call_id,
                        child_session_ids: match children {
                            Some(c) => c,
                            None => Seq::empty(),
                        },
                    },
                )
            } else {
                None
            },
            _ => None,
        },
        _ => None,
    }
}

/// The metadata that a document describes.
pub open spec fn metadata_of_text(text: Seq<char>) -> Option<SessionMetadataView> {
    match json_parsed(text) {
        Some(value) => metadata_of_json(value),
        None => None,
    }
}

/// The names of the members differ from one another.
pub proof fn lemma_member_names_differ()
    ensures
        "session_id"@ != "agent_type"@,
        "session_id"@ != "name"@,
        "session_id"@ != "description"@,
        "session_id"@ != "created_at"@,
        "session_id"@ != "updated_at"@,
        "session_id"@ != "parent_session_id"@,
        "session_id"@ != "originating_tool_call_id"@,
        "session_id"@ != "child_session_ids"@,
        "agent_type"@ != "name"@,
        "agent_type"@ != "description"@,
        "agent_type"@ != "created_at"@,
        "agent_type"@ != "updated_at"@,
        "agent_type"@ != "parent_session_id"@,
        "agent_type"@ != "originating_tool_call_id"@,
        "agent_type"@ != "child_session_ids"@,
        "name"@ != "description"@,
        "name"@ != "created_at"@,
        "name"@ != "updated_at"@,
        "name"@ != "parent_session_id"@,
        "name"@ != "originating_tool_call_id"@,
        "name"@ != "child_session_ids"@,
        "description"@ != "created_at"@,
        "description"@ != "updated_at"@,
        "description"@ != "parent_session_id"@,
        "description"@ != "originating_tool_call_id"@,
        "description"@ != "child_session_ids"@,
        "created_at"@ != "updated_at"@,
        "created_at"@ != "parent_session_id"@,
        "created_at"@ != "originating_tool_call_id"@,
        "created_at"@ != "child_session_ids"@,
        "updated_at"@ != "parent_session_id"@,
        "updated_at"@ != "originating_tool_call_id"@,
        "updated_at"@ != "child_session_ids"@,
        "parent_session_id"@ != "originating_tool_call_id"@,
        "parent_session_id"@ != "child_session_ids"@,
        "originating_tool_call_id"@ != "child_session_ids"@,
{
    reveal_strlit("session_id");
    reveal_strlit("agent_type");
    reveal_strlit("name");
    reveal_strlit("description");
    reveal_strlit("created_at");
    reveal_strlit("updated_at");
    reveal_strlit("parent_session_id");
    reveal_strlit("originating_tool_call_id");
    reveal_strlit("child_session_ids");
    assert("session_id"@.len() == 10);
    assert("agent_type"@.len() == 10);
    assert("name"@.len() == 4);
    assert("description"@.len() == 11);
    assert("created_at"@.len() == 10);
    assert("updated_at"@.len() == 10);
    assert("parent_session_id"@.len() == 17);
    assert("originating_tool_call_id"@.len() == 24);
    assert("child_session_ids"@.len() == 17);
    assert("session_id"@[0] == 's');
    assert("agent_type"@[0] == 'a');
    assert("created_at"@[0] == 'c');
    assert("updated_at"@[0] == 'u');
    assert("parent_session_id"@[0] == 'p');
    assert("child_session_ids"@[0] == 'c');
}

impl SessionMetadata {
    /// The metadata as JSON. Reading the result gives the metadata back.
    pub fn to_json(&self) -> (r: serde_json::Value)
        ensures
            r == metadata_json(self.deep_view()),
            metadata_of_json(r) == Some(self.deep_view()),
    {
        let mut entries: Vec<(String, serde_json::Value)> = Vec::new();
        proof {
            assert(entry_views(entries@) =~= Seq::empty());
        }
        put(&mut entries, "session_id", string(self.session_id.as_str()));
        put(&mut entries, "agent_type", string(self.agent_type.as_str()));
        put(&mut entries, "name", string(self.name.as_str()));
        put(&mut entries, "description", string(self.description.as_str()));
        put(&mut entries, "created_at", string(self.created_at.as_str()));
        put(&mut entries, "updated_at", string(self.updated_at.as_str()));
        proof {
            assert(entry_views(entries@) =~= seq![
                ("session_id"@, json_of_string(self.session_id@)),
                ("agent_type"@, json_of_string(self.agent_type@)),
                ("name"@, json_of_string(self.name@)),
                ("description"@, json_of_string(self.description@)),
                ("created_at"@, json_of_string(self.created_at@)),
                ("updated_at"@, json_of_string(self.updated_at@)),
            ]);
        }
        let parent = match &self.parent_session_id {
            Some(p) => Some(string(p.as_str())),
            None => None,
        };
        put_optional(&mut entries, "parent_session_id", parent);
        let origin = match &self.originating_tool_call_id {
            Some(o) => Some(string(o.as_str())),
            None => None,
        };
        put_optional(&mut entries, "originating_tool_call_id", origin);
        let children = array_of_strings(&self.child_session_ids);
        put(&mut entries, "child_session_ids", children);
        let ghost members = entry_views(entries@);
        let r = object(entries);
        proof {
            lemma_member_names_differ();
            reveal_with_fuel(member_of, 10);
            assert(json_member(r, "session_id"@) == member_of(members, "session_id"@));
            assert(json_member(r, "agent_type"@) == member_of(members, "agent_type"@));
            assert(json_member(r, "name"@) == member_of(members, "name"@));
            assert(json_member(r, "description"@) == member_of(members, "description"@));
            assert(json_member(r, "created_at"@) == member_of(members, "created_at"@));
            assert(json_member(r, "updated_at"@) == member_of(members, "updated_at"@));
            assert(json_member(r, "parent_session_id"@) == member_of(
                members,
                "parent_session_id"@,
            ));
            assert(json_member(r, "originating_tool_call_id"@) == member_of(
                members,
                "originating_tool_call_id"@,
            ));
            assert(json_member(r, "child_session_ids"@) == member_of(
                members,
                "child_session_ids"@,
            ));
        }
        r
    }

    /// The metadata document.
    pub fn to_document(&self) -> (r: String)
        ensures
            r@ == metadata_text(self.deep_view()),
    {
        to_text(&self.to_json())
    }

    /// Reads metadata from a JSON value.
    pub fn from_json(value: &serde_json::Value) -> (r: Option<SessionMetadata>)
        ensures
            r.deep_view() == metadata_of_json(*value),
    {
        let session_id = match get_str(value, "session_id") {
            Some(v) => v,
            None => {
                return None;
            },
        };
        let agent_type = match get_str(value, "agent_type") {
            Some(v) => v,
            None => {
                return None;
            },
        };
        let name = match get_str(value, "name") {
            Some(v) => v,
            None => {
                return None;
            },
        };
        let description = match get_str(value, "description") {
            Some(v) => v,
            None => {
                return None;
            },
        };
        let created_at = match get_str(value, "created_at") {
            Some(v) => v,
            None => {
                return None;
            },
        };
        let updated_at = match get_str(value, "updated_at") {
            Some(v) => v,
            None => {
                return None;
            },
        };
        let parent_session_id = match get_optional_str(value, "parent_session_id") {
            Ok(v) => v,
            Err(_) => {
                return None;
            },
        };
        let originating_tool_call_id = match get_optional_str(value, "originating_tool_call_id") {
            Ok(v) => v,
            Err(_) => {
                return None;
            },
        };
        let child_session_ids = match get_optional_strings(value, "child_session_ids") {
            Ok(Some(v)) => v,
            Ok(None) => {
                let empty: Vec<String> = Vec::new();
                proof {
                    assert(empty.deep_view() =~= Seq::empty());
                }
                empty
            },
            Err(_) => {
                return None;
            },
        };
        if !is_object(value) {
            return None;
        }
        Some(
            SessionMetadata {
                session_id,
                agent_type,
                name,
                description,
                created_at,
                updated_at,
                parent_session_id,
                originating_tool_call_id,
                child_session_ids,
            },
        )
    }

    /// Reads metadata from a document.
    pub fn from_document(text: &str) -> (r: Option<SessionMetadata>)
        ensures
            r.deep_view() == metadata_of_text(text@),
    {
        match parse(text) {
            Some(value) => SessionMetadata::from_json(&value),
            None => None,
        }
    }
}

} // verus!

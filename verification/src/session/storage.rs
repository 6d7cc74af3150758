//! Where the data of a session lies, and which sessions a listing shows.
//!
//! A session has a directory of its own under the base directory, with a
//! metadata document, a history with one record per line, and the system
//! prompt. Reading and writing these files is the caller's part.

use vstd::prelude::*;
use crate::helpers::path::{join_path, joined_path};
use crate::llm::types::lemma_deep_view_push;
use crate::session::metadata::{SessionMetadata, SessionMetadataView};
use crate::text::{is_blank, lines, str_eq, text_lines, trimmed};

verus! {

/// Default directory for session storage.
pub const SESSIONS_DIR: &'static str = "sessions";

/// One session found in the base directory: its id, and its metadata where
/// the document could be read.
#[derive(Debug)]
pub struct SessionEntry {
    pub session_id: String,
    pub metadata: Option<SessionMetadata>,
}

/// The model of a [`SessionEntry`].
pub ghost struct SessionEntryView {
    pub session_id: Seq<char>,
    pub metadata: Option<SessionMetadataView>,
}

impl DeepView for SessionEntry {
    type V = SessionEntryView;

    open spec fn deep_view(&self) -> SessionEntryView {
        SessionEntryView { session_id: self.session_id@, metadata: self.metadata.deep_view() }
    }
}

impl SessionEntryView {
    /// Whether the entry is shown as a top-level session: its metadata could
    /// be read and names no parent.
    pub open spec fn top_level(self) -> bool {
        self.metadata is Some && !self.metadata->0.is_subagent()
    }

    /// Whether the entry is shown by a listing with metadata.
    pub open spec fn listed(self, top_level_only: bool) -> bool {
        self.metadata is Some && (!top_level_only || !self.metadata->0.is_subagent())
    }
}

/// The ids of all entries, in order.
pub open spec fn entry_ids(entries: Seq<SessionEntryView>) -> Seq<Seq<char>> {
    entries.map_values(|e: SessionEntryView| e.session_id)
}

/// The ids of the top-level sessions among the entries, in order.
pub open spec fn top_level_ids(entries: Seq<SessionEntryView>) -> Seq<Seq<char>>
    decreases entries.len(),
{
    if entries.len() == 0 {
        Seq::empty()
    } else {
        let rest = top_level_ids(entries.drop_last());
        if entries.last().top_level() {
            rest.push(entries.last().session_id)
        } else {
            rest
        }
    }
}

/// The sessions that a listing shows: all, or only the top-level ones.
pub open spec fn filtered_ids(entries: Seq<SessionEntryView>, top_level_only: bool) -> Seq<Seq<char>> {
    if top_level_only {
        top_level_ids(entries)
    } else {
        entry_ids(entries)
    }
}

/// The sessions with their metadata that a listing shows, in order.
pub open spec fn listed_with_metadata(entries: Seq<SessionEntryView>, top_level_only: bool) -> Seq<
    (Seq<char>, SessionMetadataView),
>
    decreases entries.len(),
{
    if entries.len() == 0 {
        Seq::empty()
    } else {
        let rest = listed_with_metadata(entries.drop_last(), top_level_only);
        if entries.last().listed(top_level_only) {
            rest.push((entries.last().session_id, entries.last().metadata->0))
        } else {
            rest
        }
    }
}

/// The records of a history: its lines, but for those that hold nothing but
/// white space.
pub open spec fn records_of(lines: Seq<Seq<char>>) -> Seq<Seq<char>>
    decreases lines.len(),
{
    if lines.len() == 0 {
        Seq::empty()
    } else {
        let rest = records_of(lines.drop_last());
        if trimmed(lines.last()).len() == 0 {
            rest
        } else {
            rest.push(lines.last())
        }
    }
}

/// The text of a history with the records given: each record, then a line
/// feed.
pub open spec fn history_text(records: Seq<Seq<char>>) -> Seq<char>
    decreases records.len(),
{
    if records.len() == 0 {
        Seq::empty()
    } else {
        history_text(records.drop_last()) + records.last() + "\n"@
    }
}

/// The model of the pairs of a listing with metadata.
pub open spec fn pair_views(pairs: Seq<(String, SessionMetadata)>) -> Seq<
    (Seq<char>, SessionMetadataView),
> {
    pairs.map_values(|p: (String, SessionMetadata)| (p.0@, p.1.deep_view()))
}

/// Session storage manager.
#[derive(Debug)]
pub struct SessionStorage {
    base_dir: String,
}

impl SessionStorage {
    /// The base directory.
    pub closed spec fn dir(self) -> Seq<char> {
        self.base_dir@
    }

    /// The directory of a session.
    pub open spec fn session_dir_of(self, session_id: Seq<char>) -> Seq<char> {
        joined_path(self.dir(), session_id)
    }

    /// A session storage with the default directory.
    pub fn new() -> (r: SessionStorage)
        ensures
            r.dir() == SESSIONS_DIR@,
    {
        SessionStorage { base_dir: SESSIONS_DIR.to_string() }
    }

    /// A session storage with a directory of the caller's choice.
    pub fn with_dir(dir: &str) -> (r: SessionStorage)
        ensures
            r.dir() == dir@,
    {
        SessionStorage { base_dir: dir.to_string() }
    }

    /// The directory of a session.
    pub fn session_dir(&self, session_id: &str) -> (r: String)
        ensures
            r@ == self.session_dir_of(session_id@),
    {
        join_path(self.base_dir.as_str(), session_id)
    }

    /// The path of a session's metadata document.
    pub fn metadata_path(&self, session_id: &str) -> (r: String)
        ensures
            r@ == joined_path(self.session_dir_of(session_id@), "metadata.json"@),
    {
        join_path(self.session_dir(session_id).as_str(), "metadata.json")
    }

    /// The path of a session's history.
    pub fn history_path(&self, session_id: &str) -> (r: String)
        ensures
            r@ == joined_path(self.session_dir_of(session_id@), "history.jsonl"@),
    {
        join_path(self.session_dir(session_id).as_str(), "history.jsonl")
    }

    /// The path of a session's system prompt.
    pub fn system_prompt_path(&self, session_id: &str) -> (r: String)
        ensures
            r@ == joined_path(self.session_dir_of(session_id@), "system_prompt.md"@),
    {
        join_path(self.session_dir(session_id).as_str(), "system_prompt.md")
    }

    /// The base directory.
    pub fn base_dir(&self) -> (r: &str)
        ensures
            r@ == self.dir(),
    {
        self.base_dir.as_str()
    }

    /// The ids of the sessions that a listing shows. With `top_level_only`
    /// these are the sessions whose metadata could be read and names no
    /// parent; without it, all sessions.
    pub fn list_sessions_filtered(&self, entries: &Vec<SessionEntry>, top_level_only: bool) -> (r:
        Vec<String>)
        ensures
            r.deep_view() == filtered_ids(entries.deep_view(), top_level_only),
    {
        let mut out: Vec<String> = Vec::new();
        let mut i: usize = 0;
        proof {
            assert(out.deep_view() =~= Seq::empty());
            assert(entries.deep_view().take(0) =~= Seq::empty());
            assert(entry_ids(entries.deep_view().take(0)) =~= Seq::empty());
        }
        while i < entries.len()
            invariant
                0 <= i <= entries.len(),
                out.deep_view() == filtered_ids(entries.deep_view().take(i as int), top_level_only),
            decreases entries.len() - i,
        {
            proof {
                let next = entries.deep_view().take(i + 1);
                assert(next.drop_last() =~= entries.deep_view().take(i as int));
                assert(next.last() == entries[i as int].deep_view());
                assert(entry_ids(next) =~= entry_ids(next.drop_last()).push(next.last().session_id));
            }
            let keep = if top_level_only {
                match &entries[i].metadata {
                    Some(metadata) => !metadata.is_subagent(),
                    None => false,
                }
            } else {
                true
            };
            if keep {
                let ghost before = out;
                out.push(entries[i].session_id.clone());
                proof {
                    lemma_deep_view_push(before, out, out[out.len() - 1]);
                }
            }
            i += 1;
        }
        proof {
            assert(entries.deep_view().take(entries.len() as int) =~= entries.deep_view());
        }
        out
    }

    /// The ids of the top-level sessions: those that are no sub-agent
    /// sessions.
    pub fn list_top_level_sessions(&self, entries: &Vec<SessionEntry>) -> (r: Vec<String>)
        ensures
            r.deep_view() == top_level_ids(entries.deep_view()),
    {
        self.list_sessions_filtered(entries, true)
    }

    /// The sessions whose metadata could be read, each with its metadata;
    /// with `top_level_only`, only those that are no sub-agent sessions.
    pub fn list_sessions_with_metadata(&self, entries: &Vec<SessionEntry>, top_level_only: bool) -> (r:
        Vec<(String, SessionMetadata)>)
        ensures
            pair_views(r@) == listed_with_metadata(entries.deep_view(), top_level_only),
    {
        let mut out: Vec<(String, SessionMetadata)> = Vec::new();
        let mut i: usize = 0;
        proof {
            assert(pair_views(out@) =~= Seq::empty());
        }
        while i < entries.len()
            invariant
                0 <= i <= entries.len(),
                pair_views(out@) == listed_with_metadata(
                    entries.deep_view().take(i as int),
                    top_level_only,
                ),
            decreases entries.len() - i,
        {
            proof {
                let next = entries.deep_view().take(i + 1);
                assert(next.drop_last() =~= entries.deep_view().take(i as int));
                assert(next.last() == entries[i as int].deep_view());
            }
            match &entries[i].metadata {
                Some(metadata) => {
                    if !top_level_only || !metadata.is_subagent() {
                        let ghost before = out@;
                        out.push((entries[i].session_id.clone(), metadata.clone()));
                        proof {
                            assert(pair_views(out@) =~= pair_views(before).push(
                                (entries[i as int].session_id@, metadata.deep_view()),
                            ));
                        }
                    }
                },
                None => {},
            }
            i += 1;
        }
        proof {
            assert(entries.deep_view().take(entries.len() as int) =~= entries.deep_view());
        }
        out
    }

    /// Whether a listing holds a session with this id.
    pub fn session_exists(&self, entries: &Vec<SessionEntry>, session_id: &str) -> (r: bool)
        ensures
            r == entry_ids(entries.deep_view()).contains(session_id@),
    {
        let mut i: usize = 0;
        while i < entries.len()
            invariant
                0 <= i <= entries.len(),
                forall|j: int| 0 <= j < i ==> entry_ids(entries.deep_view())[j] != session_id@,
            decreases entries.len() - i,
        {
            if str_eq(entries[i].session_id.as_str(), session_id) {
                proof {
                    assert(entry_ids(entries.deep_view())[i as int] == session_id@);
                }
                return true;
            }
            i += 1;
        }
        false
    }

    /// The records of a history as it was read: one per line, lines of white
    /// space left out.
    pub fn history_records(&self, content: &str) -> (r: Vec<String>)
        ensures
            r.deep_view() == records_of(text_lines(content@)),
    {
        let all = lines(content);
        let mut out: Vec<String> = Vec::new();
        let mut i: usize = 0;
        proof {
            assert(out.deep_view() =~= Seq::empty());
        }
        while i < all.len()
            invariant
                0 <= i <= all.len(),
                out.deep_view() == records_of(all.deep_view().take(i as int)),
            decreases all.len() - i,
        {
            proof {
                let next = all.deep_view().take(i + 1);
                assert(next.drop_last() =~= all.deep_view().take(i as int));
                assert(next.last() == all[i as int]@);
            }
            if !is_blank(all[i].as_str()) {
                let ghost before = out;
                out.push(all[i].clone());
                proof {
                    lemma_deep_view_push(before, out, out[out.len() - 1]);
                }
            }
            i += 1;
        }
        proof {
            assert(all.deep_view().take(all.len() as int) =~= all.deep_view());
        }
        out
    }

    /// The text of a history with the records given: each record on a line of
    /// its own.
    pub fn history_content(&self, records: &Vec<String>) -> (r: String)
        ensures
            r@ == history_text(records.deep_view()),
    {
        let mut out = String::new();
        let mut i: usize = 0;
        while i < records.len()
            invariant
                0 <= i <= records.len(),
                out@ == history_text(records.deep_view().take(i as int)),
            decreases records.len() - i,
        {
            proof {
                let next = records.deep_view().take(i + 1);
                assert(next.drop_last() =~= records.deep_view().take(i as int));
                assert(next.last() == records[i as int]@);
            }
            out = crate::text::concat3(out.as_str(), records[i].as_str(), "\n");
            i += 1;
        }
        proof {
            assert(records.deep_view().take(records.len() as int) =~= records.deep_view());
        }
        out
    }
}

impl Default for SessionStorage {
    fn default() -> (r: SessionStorage)
        ensures
            r.dir() == SESSIONS_DIR@,
    {
        SessionStorage::new()
    }
}

} // verus!

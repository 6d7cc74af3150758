use picrust::session::{SessionEntry, SessionMetadata, SessionStorage};

fn entry(metadata: SessionMetadata) -> SessionEntry {
    SessionEntry { session_id: metadata.session_id.clone(), metadata: Some(metadata) }
}

#[test]
fn test_list_sessions_filtered() {
    let storage = SessionStorage::new();

    let entries = vec![
        // A top-level session
        entry(SessionMetadata::new("parent1", "main", "Parent", "A parent")),
        // Another top-level session
        entry(SessionMetadata::new("parent2", "main", "Parent 2", "Another parent")),
        // A subagent session
        entry(SessionMetadata::new_subagent(
            "child1",
            "researcher",
            "Child",
            "A child",
            "parent1",
            "tool_123",
        )),
    ];
    assert_eq!(entries.len(), 3);

    // List with filter = false (all sessions)
    let all_filtered = storage.list_sessions_filtered(&entries, false);
    assert_eq!(all_filtered.len(), 3);

    // List only top-level sessions
    let top_level = storage.list_sessions_filtered(&entries, true);
    assert_eq!(top_level.len(), 2);
    assert!(top_level.contains(&"parent1".to_string()));
    assert!(top_level.contains(&"parent2".to_string()));
    assert!(!top_level.contains(&"child1".to_string()));

    // Also test the convenience method
    let top_level2 = storage.list_top_level_sessions(&entries);
    assert_eq!(top_level2.len(), 2);
}

#[test]
fn test_list_sessions_with_metadata() {
    let storage = SessionStorage::new();

    let entries = vec![
        entry(SessionMetadata::new("main1", "coder", "Main 1", "First main")),
        entry(SessionMetadata::new_subagent(
            "sub1",
            "helper",
            "Sub 1",
            "First sub",
            "main1",
            "tool_1",
        )),
    ];

    // List all with metadata
    let all = storage.list_sessions_with_metadata(&entries, false);
    assert_eq!(all.len(), 2);

    // List top-level only with metadata
    let top_level = storage.list_sessions_with_metadata(&entries, true);
    assert_eq!(top_level.len(), 1);
    assert_eq!(top_level[0].0, "main1");
    assert_eq!(top_level[0].1.agent_type, "coder");
}

#[test]
fn test_append_load_messages() {
    let storage = SessionStorage::new();

    // Two records, as they are appended to a history
    let records = vec![
        "{\"role\":\"user\",\"content\":\"Hello\"}".to_string(),
        "{\"role\":\"assistant\",\"content\":\"Hi there\"}".to_string(),
    ];
    let content = storage.history_content(&records);
    assert_eq!(
        content,
        "{\"role\":\"user\",\"content\":\"Hello\"}\n{\"role\":\"assistant\",\"content\":\"Hi there\"}\n"
    );

    // Load them back
    let messages = storage.history_records(&content);
    assert_eq!(messages.len(), 2);
    assert_eq!(messages, records);
}

#[test]
fn test_session_exists() {
    let storage = SessionStorage::new();
    let mut entries: Vec<SessionEntry> = Vec::new();

    assert!(!storage.session_exists(&entries, "nonexistent"));

    entries.push(entry(SessionMetadata::new("test_session", "coder", "Test", "Testing")));

    assert!(storage.session_exists(&entries, "test_session"));
    assert!(!storage.session_exists(&entries, "nonexistent"));
}

#[test]
fn listing_keeps_order_and_drops_unreadable_metadata() {
    let storage = SessionStorage::with_dir("/data");
    let entries = vec![
        entry(SessionMetadata::new("b", "main", "B", "")),
        SessionEntry { session_id: "broken".to_string(), metadata: None },
        entry(SessionMetadata::new_subagent("c", "sub", "C", "", "b", "t1")),
        entry(SessionMetadata::new("a", "main", "A", "")),
    ];
    assert_eq!(storage.list_sessions_filtered(&entries, false), vec!["b", "broken", "c", "a"]);
    assert_eq!(storage.list_sessions_filtered(&entries, true), vec!["b", "a"]);
    let with = storage.list_sessions_with_metadata(&entries, false);
    let ids: Vec<&str> = with.iter().map(|p| p.0.as_str()).collect();
    assert_eq!(ids, vec!["b", "c", "a"]);
}

#[test]
fn paths_of_a_session() {
    let storage = SessionStorage::new();
    assert_eq!(storage.base_dir(), "sessions");
    assert_eq!(storage.session_dir("s1"), "sessions/s1");
    assert_eq!(storage.metadata_path("s1"), "sessions/s1/metadata.json");
    assert_eq!(storage.history_path("s1"), "sessions/s1/history.jsonl");
    assert_eq!(storage.system_prompt_path("s1"), "sessions/s1/system_prompt.md");

    let custom = SessionStorage::with_dir("/var/data/");
    assert_eq!(custom.base_dir(), "/var/data/");
    assert_eq!(custom.metadata_path("abc"), "/var/data/abc/metadata.json");
    assert_eq!(SessionStorage::default().base_dir(), "sessions");
}

#[test]
fn history_skips_blank_lines() {
    let storage = SessionStorage::new();
    let records = storage.history_records("{\"a\":1}\n\n   \n{\"b\":2}\r\n");
    assert_eq!(records, vec!["{\"a\":1}", "{\"b\":2}"]);
    assert!(storage.history_records("").is_empty());
    assert_eq!(storage.history_content(&Vec::new()), "");
}

#[test]
fn metadata_of_sessions() {
    let top = SessionMetadata::new("s", "coder", "Name", "About");
    assert!(!top.is_subagent());
    assert_eq!(top.session_id, "s");
    assert_eq!(top.agent_type, "coder");
    assert_eq!(top.name, "Name");
    assert_eq!(top.description, "About");
    assert_eq!(top.parent_session_id, None);
    assert_eq!(top.originating_tool_call_id, None);
    assert!(top.child_session_ids.is_empty());

    let sub = SessionMetadata::new_subagent("c", "helper", "C", "D", "s", "tool_9");
    assert!(sub.is_subagent());
    assert_eq!(sub.parent_session_id, Some("s".to_string()));
    assert_eq!(sub.originating_tool_call_id, Some("tool_9".to_string()));

    let mut stamped = top.stamped("2024-01-01T00:00:00Z");
    assert_eq!(stamped.created_at, "2024-01-01T00:00:00Z");
    assert_eq!(stamped.updated_at, "2024-01-01T00:00:00Z");
    stamped.touch("2024-01-02T00:00:00Z");
    assert_eq!(stamped.created_at, "2024-01-01T00:00:00Z");
    assert_eq!(stamped.updated_at, "2024-01-02T00:00:00Z");
    stamped.add_child("c");
    assert_eq!(stamped.child_session_ids, vec!["c"]);
    let copy = stamped.clone();
    assert_eq!(copy.child_session_ids, vec!["c"]);
    assert_eq!(copy.updated_at, "2024-01-02T00:00:00Z");
}

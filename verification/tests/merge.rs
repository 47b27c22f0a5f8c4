use codex_sessions::merge::framing::{
    build_target_replacement_history, merge_compact_instructions, merge_framing_message,
    merge_human_summary, MERGE_COMPACT_INSTRUCTIONS,
};
use codex_sessions::merge::record::{
    merge_compact_prompt, merge_source_metadata, merged_history,
};
use codex_sessions::merge::types::{
    ContentItem, MergeRequest, MergeSourceMetadata, ResponseItem, StoredThread, ThreadId,
};
use codex_sessions::paths::FilePath;

fn message(role: &str, text: &str) -> ResponseItem {
    ResponseItem::Message {
        id: None,
        role: role.to_string(),
        content: vec![ContentItem::InputText {
            text: text.to_string(),
        }],
        phase: None,
    }
}

fn message_text(item: &ResponseItem) -> Option<&str> {
    let ResponseItem::Message { content, .. } = item else {
        return None;
    };
    let [ContentItem::InputText { text }] = content.as_slice() else {
        return None;
    };
    Some(text.as_str())
}

fn thread(text: &str) -> ThreadId {
    ThreadId {
        text: text.to_string(),
    }
}

fn bare_metadata() -> MergeSourceMetadata {
    MergeSourceMetadata {
        target_thread_id: thread("target-id"),
        source_thread_id: thread("source-id"),
        source_thread_name: None,
        source_cwd: None,
        source_model: None,
        source_rollout_path: None,
        user_instruction: None,
    }
}

#[test]
fn merge_framing_marks_import_as_background_context() {
    let meta = MergeSourceMetadata {
        target_thread_id: ThreadId::new(),
        source_thread_id: ThreadId::new(),
        source_thread_name: Some("fix-auth-tests".to_string()),
        source_cwd: Some(FilePath::new("/tmp/repo")),
        source_model: Some("gpt-5.4".to_string()),
        source_rollout_path: Some(FilePath::new("/tmp/source.jsonl")),
        user_instruction: Some("focus on failing tests".to_string()),
    };

    let framing = merge_framing_message(&meta);

    let ResponseItem::Message { role, .. } = &framing else {
        panic!("merge framing should be a message");
    };
    assert_eq!(role, "developer");
    let text = message_text(&framing).unwrap_or_default();
    assert!(text.contains("imported background context, not a new user request"));
    assert!(text.contains("focus on failing tests"));
    assert!(text.contains("fix-auth-tests"));
}

#[test]
fn target_replacement_history_preserves_target_then_imports_source() {
    let target = vec![message("user", "target")];
    let framing = message("developer", "merge framing");
    let source = vec![ResponseItem::Compaction {
        encrypted_content: "opaque".to_string(),
    }];

    let history = build_target_replacement_history(&target, framing.clone(), source.clone());

    assert_eq!(history.len(), 3);
    assert_eq!(history[0], target[0]);
    assert_eq!(history[1], framing);
    assert_eq!(history[2], source[0]);
}

#[test]
fn merge_compact_instructions_appends_user_instruction() {
    let instructions = merge_compact_instructions(Some("focus on the failing auth tests"));

    assert!(instructions.contains("/merge operation"));
    assert!(instructions.contains("User merge instruction:"));
    assert!(instructions.contains("failing auth tests"));
}

#[test]
fn framing_of_a_bare_source() {
    assert_eq!(
        merge_framing_message(&bare_metadata()),
        message(
            "developer",
            "Merged context from source session \"untitled\" (thread source-id).\n\nTarget thread: target-id.\n\nThis is imported background context, not a new user request. Use it to preserve completed work, decisions, files touched, unresolved issues, and next steps from the source session.\n\nImported source state follows.",
        )
    );
}

#[test]
fn framing_of_a_source_of_which_all_is_known() {
    let meta = MergeSourceMetadata {
        source_thread_name: Some("  name ".to_string()),
        source_cwd: Some(FilePath::new("/tmp/repo")),
        source_model: Some("gpt-5.4".to_string()),
        source_rollout_path: Some(FilePath::new("/tmp/source.jsonl")),
        user_instruction: Some(" focus on tests\n".to_string()),
        ..bare_metadata()
    };
    assert_eq!(
        merge_framing_message(&meta),
        message(
            "developer",
            "Merged context from source session \"  name \" (thread source-id).\n\nTarget thread: target-id.\n\nThis is imported background context, not a new user request. Use it to preserve completed work, decisions, files touched, unresolved issues, and next steps from the source session.\n\nSource cwd: /tmp/repo\nSource model: gpt-5.4\nSource transcript: /tmp/source.jsonl\n\nUser merge instruction: focus on tests\n\nImported source state follows.",
        )
    );
}

#[test]
fn a_blank_instruction_counts_as_none() {
    for blank in ["", " ", "\n\t \u{3000}"] {
        let meta = MergeSourceMetadata {
            user_instruction: Some(blank.to_string()),
            ..bare_metadata()
        };
        assert_eq!(
            merge_framing_message(&meta),
            merge_framing_message(&bare_metadata())
        );
        assert_eq!(
            merge_compact_instructions(Some(blank)),
            MERGE_COMPACT_INSTRUCTIONS
        );
    }
    assert_eq!(merge_compact_instructions(None), MERGE_COMPACT_INSTRUCTIONS);
}

#[test]
fn white_space_around_an_instruction_makes_no_difference() {
    assert_eq!(
        merge_compact_instructions(Some("  a b\n")),
        format!("{MERGE_COMPACT_INSTRUCTIONS}\n\nUser merge instruction:\na b")
    );
    assert_eq!(
        merge_compact_instructions(Some("  a b\n")),
        merge_compact_instructions(Some("a b"))
    );
}

#[test]
fn instructions_are_these_words() {
    assert!(MERGE_COMPACT_INSTRUCTIONS
        .starts_with("You are preparing imported context for a Codex /merge operation.\n\nSumm"));
    assert!(MERGE_COMPACT_INSTRUCTIONS.ends_with("useful to the target agent."));
    assert_eq!(MERGE_COMPACT_INSTRUCTIONS.lines().count(), 5);
    assert_eq!(MERGE_COMPACT_INSTRUCTIONS.len(), 575);
}

#[test]
fn summary_names_the_source() {
    let named = MergeSourceMetadata {
        source_thread_name: Some("fix".to_string()),
        ..bare_metadata()
    };
    let blank = MergeSourceMetadata {
        source_thread_name: Some(" \n".to_string()),
        ..bare_metadata()
    };
    assert_eq!(
        merge_human_summary(&named),
        "Merged context from source session \"fix\" (thread source-id)."
    );
    assert_eq!(
        merge_human_summary(&blank),
        "Merged context from source session \"untitled\" (thread source-id)."
    );
    assert_eq!(
        merge_human_summary(&blank),
        merge_human_summary(&bare_metadata())
    );
}

#[test]
fn metadata_comes_from_source_and_request() {
    let request = MergeRequest {
        source_thread_id: thread("source-id"),
        source_rollout_path: Some(FilePath::new("/asked.jsonl")),
        user_instruction: Some("go".to_string()),
    };
    let source = StoredThread {
        thread_id: thread("source-id"),
        name: Some("name".to_string()),
        cwd: FilePath::new("/repo"),
        model: Some("model".to_string()),
        rollout_path: Some(FilePath::new("/own.jsonl")),
        history: None,
    };
    assert_eq!(
        merge_source_metadata(&thread("target-id"), &request, &source),
        MergeSourceMetadata {
            source_thread_name: Some("name".to_string()),
            source_cwd: Some(FilePath::new("/repo")),
            source_model: Some("model".to_string()),
            source_rollout_path: Some(FilePath::new("/own.jsonl")),
            user_instruction: Some("go".to_string()),
            ..bare_metadata()
        }
    );
    let bare = StoredThread {
        thread_id: thread("source-id"),
        name: None,
        cwd: FilePath::new(""),
        model: None,
        rollout_path: None,
        history: None,
    };
    assert_eq!(
        merge_source_metadata(&thread("target-id"), &request, &bare),
        MergeSourceMetadata {
            source_rollout_path: Some(FilePath::new("/asked.jsonl")),
            user_instruction: Some("go".to_string()),
            ..bare_metadata()
        }
    );
}

#[test]
fn the_model_is_asked_with_no_tools() {
    let history = vec![message("user", "hello")];
    let prompt = merge_compact_prompt(&history, Some(" go "), &Some("friendly".to_string()));
    assert_eq!(
        prompt.input,
        vec![message("user", "hello"), ResponseItem::CompactionTrigger]
    );
    assert!(prompt.tools.is_empty());
    assert!(!prompt.parallel_tool_calls);
    assert_eq!(
        prompt.base_instructions,
        merge_compact_instructions(Some("go"))
    );
    assert_eq!(prompt.personality, Some("friendly".to_string()));
    assert_eq!(prompt.output_schema, None);
    assert!(prompt.output_schema_strict);
}

#[test]
fn the_record_holds_the_history() {
    let target = vec![message("user", "target")];
    let imported = vec![
        ResponseItem::Compaction {
            encrypted_content: "opaque".to_string(),
        },
        ResponseItem::Other {
            json: "{}".to_string(),
        },
    ];
    let at = "2025-01-02T03:04:05Z".to_string();
    let (history, item) = merged_history(bare_metadata(), &target, imported, at.clone());
    assert_eq!(history.len(), 4);
    assert_eq!(history[0], target[0]);
    assert_eq!(history[1], merge_framing_message(&bare_metadata()));
    assert_eq!(
        history[3],
        ResponseItem::Other {
            json: "{}".to_string()
        }
    );
    assert_eq!(item.replacement_history, history);
    assert_eq!(item.imported_at, at);
    assert_eq!(item.human_summary, merge_human_summary(&bare_metadata()));
    assert_eq!(item.target_thread_id, thread("target-id"));
    assert_eq!(item.source_thread_id, thread("source-id"));
    assert!(item.conflict_warnings.is_empty());
}

#[test]
fn merging_again_keeps_what_was_merged() {
    let target = vec![message("user", "target")];
    let at = "2025-01-02T03:04:05Z".to_string();
    let (first, _) = merged_history(
        bare_metadata(),
        &target,
        vec![message("user", "one")],
        at.clone(),
    );
    let (second, _) = merged_history(bare_metadata(), &first, vec![message("user", "two")], at);
    assert_eq!(second[..3], first[..]);
    assert_eq!(second.len(), 5);
}

#[test]
fn thread_ids_are_version_seven_and_fresh() {
    let id = ThreadId::new();
    let other = ThreadId::new();
    assert_eq!(id.text.len(), 36);
    assert_eq!(&id.text[14..15], "7");
    assert_eq!(&id.text[8..9], "-");
    assert!(!id.is(&other));
    assert!(id.is(&id.clone()));
    assert_ne!(id, other);
}

#[test]
fn a_path_that_is_no_text_is_kept_and_shown_as_far_as_it_can_be() {
    let odd = FilePath {
        encoded: b"/tmp/\xff".to_vec(),
        shown: "/tmp/\u{fffd}".to_string(),
    };
    let request = MergeRequest {
        source_thread_id: thread("source-id"),
        source_rollout_path: Some(odd.clone()),
        user_instruction: None,
    };
    let source = StoredThread {
        thread_id: thread("source-id"),
        name: None,
        cwd: odd.clone(),
        model: None,
        rollout_path: None,
        history: None,
    };
    let metadata = merge_source_metadata(&thread("target-id"), &request, &source);
    assert_eq!(metadata.source_cwd, Some(odd.clone()));
    assert_eq!(metadata.source_rollout_path, Some(odd.clone()));
    let framing = merge_framing_message(&metadata);
    let text = message_text(&framing).unwrap_or_default();
    assert!(text.contains("\n\nSource cwd: /tmp/\u{fffd}\nSource transcript: /tmp/\u{fffd}\n\n"));
    let at = "2025-01-02T03:04:05Z".to_string();
    let (_, item) = merged_history(metadata, &vec![], vec![], at);
    assert_eq!(item.source_cwd, Some(odd.clone()));
    assert_eq!(item.source_rollout_path, Some(odd));
}

#[test]
fn a_text_is_a_path() {
    let path = FilePath::new("/tmp/\u{e9}");
    assert_eq!(path.encoded, b"/tmp/\xc3\xa9".to_vec());
    assert_eq!(path.shown, "/tmp/\u{e9}");
    assert!(!path.is_empty());
    assert!(FilePath::new("").is_empty());
}

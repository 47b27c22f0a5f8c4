use codex_sessions::merge::framing::merge_framing_message;
use codex_sessions::merge::record::{merge_compact_prompt, merge_source_metadata};
use codex_sessions::merge::task::{
    CodexErrorInfo, MergeAction, MergeContext, MergeError, MergeEvent, MergePhase, MergeRun,
    MergeTask, PostMergeHookOutcome, PreMergeHookOutcome, TaskKind, TurnStartedEvent,
};
use codex_sessions::merge::types::{
    ContentItem, MergeRequest, ResponseItem, StoredThread, ThreadId,
};
use codex_sessions::paths::FilePath;

fn message(text: &str) -> ResponseItem {
    ResponseItem::Message {
        id: None,
        role: "user".to_string(),
        content: vec![ContentItem::InputText {
            text: text.to_string(),
        }],
        phase: None,
    }
}

fn thread(text: &str) -> ThreadId {
    ThreadId {
        text: text.to_string(),
    }
}

fn context() -> MergeContext {
    MergeContext {
        turn_id: "turn-7".to_string(),
        trace_id: Some("trace".to_string()),
        started_at: Some(1_700_000_000),
        model_context_window: Some(200_000),
        collaboration_mode_kind: "default".to_string(),
        target_thread_id: thread("target-id"),
        remote_compact_provider: true,
        remote_compaction_v2: true,
        personality: Some("friendly".to_string()),
    }
}

fn request() -> MergeRequest {
    MergeRequest {
        source_thread_id: thread("source-id"),
        source_rollout_path: None,
        user_instruction: Some("go".to_string()),
    }
}

fn source() -> StoredThread {
    StoredThread {
        thread_id: thread("source-id"),
        name: Some("name".to_string()),
        cwd: FilePath::new("/repo"),
        model: None,
        rollout_path: Some(FilePath::new("/own.jsonl")),
        history: Some(vec!["line".to_string()]),
    }
}

fn goes_on() -> MergeEvent {
    MergeEvent::PreMergeHooksRan(PreMergeHookOutcome::Continue)
}

fn compaction() -> ResponseItem {
    ResponseItem::Compaction {
        encrypted_content: "opaque".to_string(),
    }
}

/// The last action of a merge after events that it waits for, and where it stands.
fn after(
    context: MergeContext,
    request: MergeRequest,
    events: Vec<MergeEvent>,
) -> (MergeRun, MergeAction) {
    let (mut run, mut action) = MergeTask::new(request).start(context);
    for event in events {
        (run, action) = run.step(event);
    }
    (run, action)
}

fn failed(message: &str) -> MergeAction {
    MergeAction::SendError {
        message: format!("Merge failed: {message}"),
        codex_error_info: Some(CodexErrorInfo::Other),
    }
}

#[test]
fn a_merge_on_which_nothing_fails() {
    let task = MergeTask::new(request());
    assert_eq!(task.kind(), TaskKind::Merge);
    assert_eq!(task.span_name(), "session_task.merge");
    assert_eq!(task.clone(), task);

    let (run, action) = task.start(context());
    assert_eq!(
        action,
        MergeAction::AnnounceTurn(TurnStartedEvent {
            turn_id: "turn-7".to_string(),
            trace_id: Some("trace".to_string()),
            started_at: Some(1_700_000_000),
            model_context_window: Some(200_000),
            collaboration_mode_kind: "default".to_string(),
        })
    );
    let (run, action) = run.step(MergeEvent::Done);
    assert_eq!(action, MergeAction::CountMerge("remote_v2".to_string()));
    let (run, action) = run.step(MergeEvent::Done);
    assert_eq!(action, MergeAction::RunPreMergeHooks);
    let (run, action) = run.step(goes_on());
    assert_eq!(
        action,
        MergeAction::ReadThread {
            thread_id: thread("source-id"),
            with_archived: true,
            with_history: true,
        }
    );
    let (run, action) = run.step(MergeEvent::SourceRead(Ok(source())));
    assert_eq!(
        action,
        MergeAction::ReconstructHistory(vec!["line".to_string()])
    );
    let history = vec![message("source")];
    let (run, action) = run.step(MergeEvent::HistoryReconstructed(history.clone()));
    assert_eq!(
        action,
        MergeAction::Compact {
            prompt: merge_compact_prompt(&history, Some("go"), &Some("friendly".to_string())),
            turn_metadata_header: None,
        }
    );
    let (run, action) = run.step(MergeEvent::Compacted(Ok(compaction())));
    assert_eq!(
        action,
        MergeAction::ProcessCompacted {
            prompt_input: history,
            compaction_output: compaction(),
            inject_initial_context: false,
        }
    );
    let (run, action) = run.step(MergeEvent::CompactedProcessed(vec![compaction()]));
    assert_eq!(action, MergeAction::ReadTargetHistory);
    let (run, action) = run.step(MergeEvent::TargetHistoryRead(vec![message("target")]));
    let MergeAction::ReplaceHistory {
        history,
        reference_context,
        item,
    } = action
    else {
        panic!("the history should be replaced");
    };
    assert_eq!(reference_context, None);
    let metadata = merge_source_metadata(&thread("target-id"), &request(), &source());
    assert_eq!(
        history,
        vec![
            message("target"),
            merge_framing_message(&metadata),
            compaction()
        ]
    );
    assert_eq!(item.replacement_history, history);
    assert_eq!(item.source_cwd, Some(FilePath::new("/repo")));
    assert_eq!(item.source_rollout_path, Some(FilePath::new("/own.jsonl")));
    assert_eq!(item.user_instruction, Some("go".to_string()));
    let at = item.imported_at.as_bytes();
    assert_eq!(at.len(), 20);
    assert_eq!((at[4], at[10], at[13], at[19]), (b'-', b'T', b':', b'Z'));
    let (run, action) = run.step(MergeEvent::Done);
    assert_eq!(action, MergeAction::RecomputeTokenUsage);
    let (run, action) = run.step(MergeEvent::Done);
    assert_eq!(action, MergeAction::RunPostMergeHooks);
    let (run, action) = run.step(MergeEvent::PostMergeHooksRan(PostMergeHookOutcome::Continue));
    assert_eq!(action, MergeAction::Finish(None));
    assert_eq!(run.phase, MergePhase::Finished);
}

#[test]
fn there_is_no_merge_without_remote_compaction() {
    for (provider, feature) in [(false, false), (false, true), (true, false)] {
        let context = MergeContext {
            remote_compact_provider: provider,
            remote_compaction_v2: feature,
            ..context()
        };
        let (run, action) = after(context, request(), vec![MergeEvent::Done]);
        assert_eq!(
            action,
            failed("/merge requires the remote compact runtime; no plaintext/local merge fallback is available")
        );
        let (run, action) = run.step(MergeEvent::Done);
        assert_eq!(action, MergeAction::Finish(None));
        assert_eq!(run.phase, MergePhase::Finished);
    }
}

#[test]
fn hooks_before_a_merge_can_stop_it() {
    for (reason, said) in [
        (Some("not now".to_string()), "not now"),
        (None, "PreMerge hook stopped execution"),
    ] {
        let stopped = MergeEvent::PreMergeHooksRan(PreMergeHookOutcome::Stopped { reason });
        let (_, action) = after(
            context(),
            request(),
            vec![MergeEvent::Done, MergeEvent::Done, stopped],
        );
        assert_eq!(action, failed(said));
    }
}

#[test]
fn a_source_is_read_by_its_transcript_where_one_is_given() {
    let request = MergeRequest {
        source_rollout_path: Some(FilePath::new("/asked.jsonl")),
        ..request()
    };
    let (_, action) = after(
        context(),
        request,
        vec![MergeEvent::Done, MergeEvent::Done, goes_on()],
    );
    assert_eq!(
        action,
        MergeAction::ReadThreadByRolloutPath {
            rollout_path: FilePath::new("/asked.jsonl"),
            with_archived: true,
            with_history: true,
        }
    );
}

#[test]
fn a_source_must_be_the_thread_asked_for_and_have_its_history() {
    let other = StoredThread {
        thread_id: thread("other-id"),
        history: None,
        ..source()
    };
    let bare = StoredThread {
        history: None,
        ..source()
    };
    for (read, said) in [
        (
            Ok(other),
            "source rollout belongs to thread other-id, not requested thread source-id",
        ),
        (Ok(bare), "source thread history was not loaded"),
        (Err("disk: gone".to_string()), "disk: gone"),
    ] {
        let (run, action) = after(
            context(),
            request(),
            vec![
                MergeEvent::Done,
                MergeEvent::Done,
                goes_on(),
                MergeEvent::SourceRead(read),
            ],
        );
        assert_eq!(action, failed(said));
        assert_eq!(run.phase, MergePhase::SendingError);
    }
}

#[test]
fn a_source_that_cannot_be_compacted_is_not_merged() {
    let (_, action) = after(
        context(),
        request(),
        vec![
            MergeEvent::Done,
            MergeEvent::Done,
            goes_on(),
            MergeEvent::SourceRead(Ok(source())),
            MergeEvent::HistoryReconstructed(vec![]),
            MergeEvent::Compacted(Err("no answer".to_string())),
        ],
    );
    assert_eq!(action, failed("no answer"));
}

#[test]
fn hooks_after_a_merge_can_only_complain() {
    let (run, action) = after(
        context(),
        request(),
        vec![
            MergeEvent::Done,
            MergeEvent::Done,
            goes_on(),
            MergeEvent::SourceRead(Ok(source())),
            MergeEvent::HistoryReconstructed(vec![]),
            MergeEvent::Compacted(Ok(compaction())),
            MergeEvent::CompactedProcessed(vec![]),
            MergeEvent::TargetHistoryRead(vec![]),
            MergeEvent::Done,
            MergeEvent::Done,
            MergeEvent::PostMergeHooksRan(PostMergeHookOutcome::Stopped),
        ],
    );
    assert_eq!(action, failed("PostMerge hook stopped execution"));
    let (_, action) = run.step(MergeEvent::Done);
    assert_eq!(action, MergeAction::Finish(None));
}

#[test]
fn merge_errors_in_words() {
    assert_eq!(
        MergeError::OtherThread {
            found: thread("a"),
            requested: thread("b"),
        }
        .message(),
        "source rollout belongs to thread a, not requested thread b"
    );
    assert_eq!(
        MergeError::NoHistory.message(),
        "source thread history was not loaded"
    );
    assert_eq!(MergeError::Outside("x".to_string()).message(), "x");
}

#[test]
fn a_merge_expects_what_it_asked_for() {
    let (run, _) = MergeTask::new(request()).start(context());
    assert!(run.expects(&MergeEvent::Done));
    assert!(!run.expects(&goes_on()));
    let (run, _) = run.step(MergeEvent::Done);
    let (run, _) = run.step(MergeEvent::Done);
    assert!(run.expects(&goes_on()));
    assert!(!run.expects(&MergeEvent::Done));
}

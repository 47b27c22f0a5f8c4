//! A merge, step by step.
//!
//! A merge says what to do next outside (run hooks, read a thread, ask the model, replace a
//! history); what came of it is handed back, until the merge says that it has finished.
use crate::clock::{is_utc_second_text, rfc3339_now, some_utc_second_text};
use crate::merge::record::{
    history_of, merge_compact_prompt, merge_source_metadata, merged_history, merged_of,
    metadata_of, prompt_of,
};
use crate::merge::types::{
    ItemView, MergeRequest, MergeRequestView, MergeSourceMetadata, MergedItem, MergedItemView,
    MetadataView, Prompt, PromptView, ResponseItem, StoredThread, ThreadId, ThreadView,
};
use crate::paths::{FilePath, PathView};
use crate::text::{as_text, clone_option};
use vstd::prelude::*;

verus! {

/// The kind of remote compaction that merges are counted under.
pub const MERGE_METRIC: &'static str = "remote_v2";

/// The kind of a task.
#[derive(Clone, Copy, Debug, PartialEq, Eq, Structural)]
pub enum TaskKind {
    Merge,
}

/// Why a merge failed.
#[derive(Debug, PartialEq, Eq)]
pub enum MergeError {
    /// There is no remote compaction to sum the source up with.
    NoRemoteCompaction,
    /// A hook before the merge stopped it, and may have said why.
    PreMergeStopped(Option<String>),
    /// The source is another thread than the one that was asked for.
    OtherThread { found: ThreadId, requested: ThreadId },
    /// The source came without its history.
    NoHistory,
    /// Something outside failed, and said why.
    Outside(String),
    /// A hook after the merge stopped it.
    PostMergeStopped,
}

pub enum MergeErrorView {
    NoRemoteCompaction,
    PreMergeStopped(Option<Seq<char>>),
    OtherThread { found: Seq<char>, requested: Seq<char> },
    NoHistory,
    Outside(Seq<char>),
    PostMergeStopped,
}

impl View for MergeError {
    type V = MergeErrorView;

    open spec fn view(&self) -> MergeErrorView {
        match self {
            MergeError::NoRemoteCompaction => MergeErrorView::NoRemoteCompaction,
            MergeError::PreMergeStopped(reason) => MergeErrorView::PreMergeStopped(
                reason.deep_view(),
            ),
            MergeError::OtherThread { found, requested } => MergeErrorView::OtherThread {
                found: found@,
                requested: requested@,
            },
            MergeError::NoHistory => MergeErrorView::NoHistory,
            MergeError::Outside(message) => MergeErrorView::Outside(message@),
            MergeError::PostMergeStopped => MergeErrorView::PostMergeStopped,
        }
    }
}

impl MergeErrorView {
    /// The error in words.
    pub open spec fn words(self) -> Seq<char> {
        match self {
            MergeErrorView::NoRemoteCompaction =>
            "/merge requires the remote compact runtime; no plaintext/local merge fallback is available"@,
            MergeErrorView::PreMergeStopped(Some(reason)) => reason,
            MergeErrorView::PreMergeStopped(None) => "PreMerge hook stopped execution"@,
            MergeErrorView::OtherThread { found, requested } =>
            "source rollout belongs to thread "@ + found + ", not requested thread "@ + requested,
            MergeErrorView::NoHistory => "source thread history was not loaded"@,
            MergeErrorView::Outside(message) => message,
            MergeErrorView::PostMergeStopped => "PostMerge hook stopped execution"@,
        }
    }
}

impl MergeError {
    /// The error in words.
    pub fn message(&self) -> (res: String)
        ensures
            res@ == self@.words(),
    {
        match self {
            MergeError::NoRemoteCompaction =>
            "/merge requires the remote compact runtime; no plaintext/local merge fallback is available".to_string(),
            MergeError::PreMergeStopped(Some(reason)) => reason.clone(),
            MergeError::PreMergeStopped(None) => "PreMerge hook stopped execution".to_string(),
            MergeError::OtherThread { found, requested } => {
                let mut text: String = "source rollout belongs to thread ".to_string();
                text.append(found.text.as_str());
                text.append(", not requested thread ");
                text.append(requested.text.as_str());
                text
            },
            MergeError::NoHistory => "source thread history was not loaded".to_string(),
            MergeError::Outside(message) => message.clone(),
            MergeError::PostMergeStopped => "PostMerge hook stopped execution".to_string(),
        }
    }
}

/// What kind of error an error event is about.
#[derive(Clone, Copy, Debug, PartialEq, Eq, Structural)]
pub enum CodexErrorInfo {
    /// None that is told apart.
    Other,
}

/// The event that a turn has started.
#[derive(Debug, PartialEq, Eq)]
pub struct TurnStartedEvent {
    pub turn_id: String,
    pub trace_id: Option<String>,
    pub started_at: Option<i64>,
    pub model_context_window: Option<i64>,
    pub collaboration_mode_kind: String,
}

pub struct TurnStartedView {
    pub turn_id: Seq<char>,
    pub trace_id: Option<Seq<char>>,
    pub started_at: Option<i64>,
    pub model_context_window: Option<i64>,
    pub collaboration_mode_kind: Seq<char>,
}

impl View for TurnStartedEvent {
    type V = TurnStartedView;

    open spec fn view(&self) -> TurnStartedView {
        TurnStartedView {
            turn_id: self.turn_id@,
            trace_id: self.trace_id.deep_view(),
            started_at: self.started_at,
            model_context_window: self.model_context_window,
            collaboration_mode_kind: self.collaboration_mode_kind@,
        }
    }
}

/// The turn and the session that a merge runs in.
#[derive(Debug, PartialEq, Eq)]
pub struct MergeContext {
    /// The id of the turn.
    pub turn_id: String,
    /// The id that the turn is traced under.
    pub trace_id: Option<String>,
    /// When the turn started, in seconds since the Unix epoch.
    pub started_at: Option<i64>,
    /// How many tokens the model takes.
    pub model_context_window: Option<i64>,
    /// The kind of collaboration that the turn is in.
    pub collaboration_mode_kind: String,
    /// The thread that is merged into.
    pub target_thread_id: ThreadId,
    /// Whether the provider compacts remotely.
    pub remote_compact_provider: bool,
    /// Whether the second version of remote compaction is enabled.
    pub remote_compaction_v2: bool,
    /// How the model is to speak.
    pub personality: Option<String>,
}

pub struct MergeContextView {
    pub turn_id: Seq<char>,
    pub trace_id: Option<Seq<char>>,
    pub started_at: Option<i64>,
    pub model_context_window: Option<i64>,
    pub collaboration_mode_kind: Seq<char>,
    pub target_thread_id: Seq<char>,
    pub remote_compact_provider: bool,
    pub remote_compaction_v2: bool,
    pub personality: Option<Seq<char>>,
}

impl View for MergeContext {
    type V = MergeContextView;

    open spec fn view(&self) -> MergeContextView {
        MergeContextView {
            turn_id: self.turn_id@,
            trace_id: self.trace_id.deep_view(),
            started_at: self.started_at,
            model_context_window: self.model_context_window,
            collaboration_mode_kind: self.collaboration_mode_kind@,
            target_thread_id: self.target_thread_id@,
            remote_compact_provider: self.remote_compact_provider,
            remote_compaction_v2: self.remote_compaction_v2,
            personality: self.personality.deep_view(),
        }
    }
}

impl MergeContextView {
    /// Whether the source can be summed up remotely; there is no other way.
    pub open spec fn can_merge(self) -> bool {
        self.remote_compact_provider && self.remote_compaction_v2
    }

    /// The event that the turn has started.
    pub open spec fn turn_started(self) -> TurnStartedView {
        TurnStartedView {
            turn_id: self.turn_id,
            trace_id: self.trace_id,
            started_at: self.started_at,
            model_context_window: self.model_context_window,
            collaboration_mode_kind: self.collaboration_mode_kind,
        }
    }
}

impl MergeContext {
    /// The event that the turn has started.
    pub fn turn_started(&self) -> (res: TurnStartedEvent)
        ensures
            res@ == self@.turn_started(),
    {
        TurnStartedEvent {
            turn_id: self.turn_id.clone(),
            trace_id: clone_option(&self.trace_id),
            started_at: self.started_at,
            model_context_window: self.model_context_window,
            collaboration_mode_kind: self.collaboration_mode_kind.clone(),
        }
    }
}

/// What a merge waits for.
#[derive(Debug, PartialEq, Eq)]
pub enum MergePhase {
    AnnouncingTurn,
    CountingMerge,
    RunningPreMergeHooks,
    ReadingSource,
    ReconstructingSource(MergeSourceMetadata),
    Compacting(MergeSourceMetadata, Vec<ResponseItem>),
    ProcessingCompacted(MergeSourceMetadata),
    ReadingTarget(MergeSourceMetadata, Vec<ResponseItem>),
    ReplacingHistory,
    RecomputingTokenUsage,
    RunningPostMergeHooks,
    SendingError,
    Finished,
}

pub enum MergePhaseView {
    AnnouncingTurn,
    CountingMerge,
    RunningPreMergeHooks,
    ReadingSource,
    ReconstructingSource(MetadataView),
    Compacting(MetadataView, Seq<ItemView>),
    ProcessingCompacted(MetadataView),
    ReadingTarget(MetadataView, Seq<ItemView>),
    ReplacingHistory,
    RecomputingTokenUsage,
    RunningPostMergeHooks,
    SendingError,
    Finished,
}

impl View for MergePhase {
    type V = MergePhaseView;

    open spec fn view(&self) -> MergePhaseView {
        match self {
            MergePhase::AnnouncingTurn => MergePhaseView::AnnouncingTurn,
            MergePhase::CountingMerge => MergePhaseView::CountingMerge,
            MergePhase::RunningPreMergeHooks => MergePhaseView::RunningPreMergeHooks,
            MergePhase::ReadingSource => MergePhaseView::ReadingSource,
            MergePhase::ReconstructingSource(metadata) => MergePhaseView::ReconstructingSource(
                metadata@,
            ),
            MergePhase::Compacting(metadata, history) => MergePhaseView::Compacting(
                metadata@,
                history.deep_view(),
            ),
            MergePhase::ProcessingCompacted(metadata) => MergePhaseView::ProcessingCompacted(
                metadata@,
            ),
            MergePhase::ReadingTarget(metadata, imported) => MergePhaseView::ReadingTarget(
                metadata@,
                imported.deep_view(),
            ),
            MergePhase::ReplacingHistory => MergePhaseView::ReplacingHistory,
            MergePhase::RecomputingTokenUsage => MergePhaseView::RecomputingTokenUsage,
            MergePhase::RunningPostMergeHooks => MergePhaseView::RunningPostMergeHooks,
            MergePhase::SendingError => MergePhaseView::SendingError,
            MergePhase::Finished => MergePhaseView::Finished,
        }
    }
}

/// What is to be done next.
#[derive(Debug, PartialEq, Eq)]
pub enum MergeAction {
    /// Send the event that the turn has started.
    AnnounceTurn(TurnStartedEvent),
    /// Count the merge under a kind of compaction.
    CountMerge(String),
    /// Run the hooks that come before a merge.
    RunPreMergeHooks,
    /// Read a thread by the path of its transcript.
    ReadThreadByRolloutPath { rollout_path: FilePath, with_archived: bool, with_history: bool },
    /// Read a thread by its id.
    ReadThread { thread_id: ThreadId, with_archived: bool, with_history: bool },
    /// Make a history out of the lines of a transcript.
    ReconstructHistory(Vec<String>),
    /// Ask the model for a compaction, with a header on the turn if there is one.
    Compact { prompt: Prompt, turn_metadata_header: Option<String> },
    /// Make a history out of what was compacted and what came of it, and process it.
    ProcessCompacted {
        prompt_input: Vec<ResponseItem>,
        compaction_output: ResponseItem,
        inject_initial_context: bool,
    },
    /// Read the history of the target.
    ReadTargetHistory,
    /// Replace the history of the target, with a context to refer to if there is one, and record
    /// the merge.
    ReplaceHistory {
        history: Vec<ResponseItem>,
        reference_context: Option<String>,
        item: MergedItem,
    },
    /// Count the tokens of the target anew.
    RecomputeTokenUsage,
    /// Run the hooks that come after a merge.
    RunPostMergeHooks,
    /// Send the event that the merge failed, with why and what kind of error it is.
    SendError { message: String, codex_error_info: Option<CodexErrorInfo> },
    /// Nothing is left to do. The turn ends with the last message of the agent, if there is one.
    Finish(Option<String>),
}

pub enum MergeActionView {
    AnnounceTurn(TurnStartedView),
    CountMerge(Seq<char>),
    RunPreMergeHooks,
    ReadThreadByRolloutPath { rollout_path: PathView, with_archived: bool, with_history: bool },
    ReadThread { thread_id: Seq<char>, with_archived: bool, with_history: bool },
    ReconstructHistory(Seq<Seq<char>>),
    Compact { prompt: PromptView, turn_metadata_header: Option<Seq<char>> },
    ProcessCompacted {
        prompt_input: Seq<ItemView>,
        compaction_output: ItemView,
        inject_initial_context: bool,
    },
    ReadTargetHistory,
    ReplaceHistory {
        history: Seq<ItemView>,
        reference_context: Option<Seq<char>>,
        item: MergedItemView,
    },
    RecomputeTokenUsage,
    RunPostMergeHooks,
    SendError { message: Seq<char>, codex_error_info: Option<CodexErrorInfo> },
    Finish(Option<Seq<char>>),
}

impl View for MergeAction {
    type V = MergeActionView;

    open spec fn view(&self) -> MergeActionView {
        match self {
            MergeAction::AnnounceTurn(event) => MergeActionView::AnnounceTurn(event@),
            MergeAction::CountMerge(kind) => MergeActionView::CountMerge(kind@),
            MergeAction::RunPreMergeHooks => MergeActionView::RunPreMergeHooks,
            MergeAction::ReadThreadByRolloutPath { rollout_path, with_archived, with_history } =>
            MergeActionView::ReadThreadByRolloutPath {
                rollout_path: rollout_path@,
                with_archived: *with_archived,
                with_history: *with_history,
            },
            MergeAction::ReadThread { thread_id, with_archived, with_history } =>
            MergeActionView::ReadThread {
                thread_id: thread_id@,
                with_archived: *with_archived,
                with_history: *with_history,
            },
            MergeAction::ReconstructHistory(lines) => MergeActionView::ReconstructHistory(
                lines.deep_view(),
            ),
            MergeAction::Compact { prompt, turn_metadata_header } => MergeActionView::Compact {
                prompt: prompt@,
                turn_metadata_header: turn_metadata_header.deep_view(),
            },
            MergeAction::ProcessCompacted {
                prompt_input,
                compaction_output,
                inject_initial_context,
            } => MergeActionView::ProcessCompacted {
                prompt_input: prompt_input.deep_view(),
                compaction_output: compaction_output@,
                inject_initial_context: *inject_initial_context,
            },
            MergeAction::ReadTargetHistory => MergeActionView::ReadTargetHistory,
            MergeAction::ReplaceHistory { history, reference_context, item } =>
            MergeActionView::ReplaceHistory {
                history: history.deep_view(),
                reference_context: reference_context.deep_view(),
                item: item@,
            },
            MergeAction::RecomputeTokenUsage => MergeActionView::RecomputeTokenUsage,
            MergeAction::RunPostMergeHooks => MergeActionView::RunPostMergeHooks,
            MergeAction::SendError { message, codex_error_info } => MergeActionView::SendError {
                message: message@,
                codex_error_info: *codex_error_info,
            },
            MergeAction::Finish(last_message) => MergeActionView::Finish(
                last_message.deep_view(),
            ),
        }
    }
}

/// What the hooks before a merge say.
#[derive(Debug, PartialEq, Eq)]
pub enum PreMergeHookOutcome {
    Continue,
    Stopped { reason: Option<String> },
}

/// What the hooks after a merge say.
#[derive(Clone, Copy, Debug, PartialEq, Eq, Structural)]
pub enum PostMergeHookOutcome {
    Continue,
    Stopped,
}

/// What came of an action.
#[derive(Debug, PartialEq, Eq)]
pub enum MergeEvent {
    /// What was to be done is done.
    Done,
    PreMergeHooksRan(PreMergeHookOutcome),
    SourceRead(Result<StoredThread, String>),
    HistoryReconstructed(Vec<ResponseItem>),
    Compacted(Result<ResponseItem, String>),
    CompactedProcessed(Vec<ResponseItem>),
    TargetHistoryRead(Vec<ResponseItem>),
    PostMergeHooksRan(PostMergeHookOutcome),
}

pub enum PreMergeView {
    Continue,
    Stopped { reason: Option<Seq<char>> },
}

pub enum MergeEventView {
    Done,
    PreMergeHooksRan(PreMergeView),
    SourceRead(Result<ThreadView, Seq<char>>),
    HistoryReconstructed(Seq<ItemView>),
    Compacted(Result<ItemView, Seq<char>>),
    CompactedProcessed(Seq<ItemView>),
    TargetHistoryRead(Seq<ItemView>),
    PostMergeHooksRan(PostMergeHookOutcome),
}

impl View for MergeEvent {
    type V = MergeEventView;

    open spec fn view(&self) -> MergeEventView {
        match self {
            MergeEvent::Done => MergeEventView::Done,
            MergeEvent::PreMergeHooksRan(PreMergeHookOutcome::Continue) =>
            MergeEventView::PreMergeHooksRan(PreMergeView::Continue),
            MergeEvent::PreMergeHooksRan(PreMergeHookOutcome::Stopped { reason }) =>
            MergeEventView::PreMergeHooksRan(
                PreMergeView::Stopped { reason: reason.deep_view() },
            ),
            MergeEvent::SourceRead(Ok(source)) => MergeEventView::SourceRead(Ok(source@)),
            MergeEvent::SourceRead(Err(message)) => MergeEventView::SourceRead(Err(message@)),
            MergeEvent::HistoryReconstructed(items) => MergeEventView::HistoryReconstructed(
                items.deep_view(),
            ),
            MergeEvent::Compacted(Ok(output)) => MergeEventView::Compacted(Ok(output@)),
            MergeEvent::Compacted(Err(message)) => MergeEventView::Compacted(Err(message@)),
            MergeEvent::CompactedProcessed(items) => MergeEventView::CompactedProcessed(
                items.deep_view(),
            ),
            MergeEvent::TargetHistoryRead(items) => MergeEventView::TargetHistoryRead(
                items.deep_view(),
            ),
            MergeEvent::PostMergeHooksRan(outcome) => MergeEventView::PostMergeHooksRan(*outcome),
        }
    }
}

/// A task that merges.
#[derive(Debug, PartialEq, Eq)]
pub struct MergeTask {
    pub request: MergeRequest,
}

impl View for MergeTask {
    type V = MergeRequestView;

    open spec fn view(&self) -> MergeRequestView {
        self.request@
    }
}

impl Clone for MergeTask {
    fn clone(&self) -> (res: Self)
        ensures
            res@ == self@,
    {
        MergeTask { request: self.request.clone() }
    }
}

/// A merge that is under way.
#[derive(Debug, PartialEq, Eq)]
pub struct MergeRun {
    pub context: MergeContext,
    pub request: MergeRequest,
    pub phase: MergePhase,
}

pub struct MergeRunView {
    pub context: MergeContextView,
    pub request: MergeRequestView,
    pub phase: MergePhaseView,
}

impl View for MergeRun {
    type V = MergeRunView;

    open spec fn view(&self) -> MergeRunView {
        MergeRunView { context: self.context@, request: self.request@, phase: self.phase@ }
    }
}

/// A merge that failed says so.
pub open spec fn merge_failed(error: MergeErrorView) -> (MergePhaseView, MergeActionView) {
    (
        MergePhaseView::SendingError,
        MergeActionView::SendError {
            message: "Merge failed: "@ + error.words(),
            codex_error_info: Some(CodexErrorInfo::Other),
        },
    )
}

/// Nothing is left to do; a merge leaves no message of the agent.
pub open spec fn merge_finished() -> (MergePhaseView, MergeActionView) {
    (MergePhaseView::Finished, MergeActionView::Finish(None))
}

/// Reading the source: by the path of its transcript where one was given, by its id otherwise;
/// archived or not, and with its history.
pub open spec fn reading(request: MergeRequestView) -> MergeActionView {
    match request.source_rollout_path {
        Some(rollout_path) => MergeActionView::ReadThreadByRolloutPath {
            rollout_path,
            with_archived: true,
            with_history: true,
        },
        None => MergeActionView::ReadThread {
            thread_id: request.source_thread_id,
            with_archived: true,
            with_history: true,
        },
    }
}

/// The source has been read.
pub open spec fn source_found(
    context: MergeContextView,
    request: MergeRequestView,
    source: ThreadView,
) -> (MergePhaseView, MergeActionView) {
    if source.thread_id != request.source_thread_id {
        merge_failed(
            MergeErrorView::OtherThread {
                found: source.thread_id,
                requested: request.source_thread_id,
            },
        )
    } else {
        match source.history {
            Some(lines) => (
                MergePhaseView::ReconstructingSource(
                    metadata_of(context.target_thread_id, request, source),
                ),
                MergeActionView::ReconstructHistory(lines),
            ),
            None => merge_failed(MergeErrorView::NoHistory),
        }
    }
}

/// Replacing the history of the target, at a moment.
pub open spec fn replacing(
    metadata: MetadataView,
    target: Seq<ItemView>,
    imported: Seq<ItemView>,
    imported_at: Seq<char>,
) -> (MergePhaseView, MergeActionView) {
    let history = history_of(metadata, target, imported);
    (
        MergePhaseView::ReplacingHistory,
        MergeActionView::ReplaceHistory {
            history,
            reference_context: None,
            item: merged_of(metadata, history, imported_at),
        },
    )
}

impl MergeRunView {
    /// Whether `event` is what the merge waits for.
    pub open spec fn awaits(self, event: MergeEventView) -> bool {
        match self.phase {
            MergePhaseView::RunningPreMergeHooks => event is PreMergeHooksRan,
            MergePhaseView::ReadingSource => event is SourceRead,
            MergePhaseView::ReconstructingSource(_) => event is HistoryReconstructed,
            MergePhaseView::Compacting(_, _) => event is Compacted,
            MergePhaseView::ProcessingCompacted(_) => event is CompactedProcessed,
            MergePhaseView::ReadingTarget(_, _) => event is TargetHistoryRead,
            MergePhaseView::RunningPostMergeHooks => event is PostMergeHooksRan,
            MergePhaseView::Finished => false,
            _ => event is Done,
        }
    }

    /// What follows an event, where a history replaced now is replaced at `imported_at`.
    pub open spec fn after(self, event: MergeEventView, imported_at: Seq<char>) -> (
        MergePhaseView,
        MergeActionView,
    ) {
        match (self.phase, event) {
            (MergePhaseView::AnnouncingTurn, MergeEventView::Done) => if self.context.can_merge() {
                (MergePhaseView::CountingMerge, MergeActionView::CountMerge(MERGE_METRIC@))
            } else {
                merge_failed(MergeErrorView::NoRemoteCompaction)
            },
            (MergePhaseView::CountingMerge, MergeEventView::Done) => (
                MergePhaseView::RunningPreMergeHooks,
                MergeActionView::RunPreMergeHooks,
            ),
            (
                MergePhaseView::RunningPreMergeHooks,
                MergeEventView::PreMergeHooksRan(PreMergeView::Continue),
            ) => (MergePhaseView::ReadingSource, reading(self.request)),
            (
                MergePhaseView::RunningPreMergeHooks,
                MergeEventView::PreMergeHooksRan(PreMergeView::Stopped { reason }),
            ) => merge_failed(MergeErrorView::PreMergeStopped(reason)),
            (MergePhaseView::ReadingSource, MergeEventView::SourceRead(Ok(source))) =>
            source_found(self.context, self.request, source),
            (MergePhaseView::ReadingSource, MergeEventView::SourceRead(Err(message))) =>
            merge_failed(MergeErrorView::Outside(message)),
            (
                MergePhaseView::ReconstructingSource(metadata),
                MergeEventView::HistoryReconstructed(history),
            ) => (
                MergePhaseView::Compacting(metadata, history),
                MergeActionView::Compact {
                    prompt: prompt_of(
                        history,
                        self.request.user_instruction,
                        self.context.personality,
                    ),
                    turn_metadata_header: None,
                },
            ),
            (
                MergePhaseView::Compacting(metadata, history),
                MergeEventView::Compacted(Ok(output)),
            ) => (
                MergePhaseView::ProcessingCompacted(metadata),
                MergeActionView::ProcessCompacted {
                    prompt_input: history,
                    compaction_output: output,
                    inject_initial_context: false,
                },
            ),
            (MergePhaseView::Compacting(_, _), MergeEventView::Compacted(Err(message))) =>
            merge_failed(MergeErrorView::Outside(message)),
            (
                MergePhaseView::ProcessingCompacted(metadata),
                MergeEventView::CompactedProcessed(imported),
            ) => (
                MergePhaseView::ReadingTarget(metadata, imported),
                MergeActionView::ReadTargetHistory,
            ),
            (
                MergePhaseView::ReadingTarget(metadata, imported),
                MergeEventView::TargetHistoryRead(target),
            ) => replacing(metadata, target, imported, imported_at),
            (MergePhaseView::ReplacingHistory, MergeEventView::Done) => (
                MergePhaseView::RecomputingTokenUsage,
                MergeActionView::RecomputeTokenUsage,
            ),
            (MergePhaseView::RecomputingTokenUsage, MergeEventView::Done) => (
                MergePhaseView::RunningPostMergeHooks,
                MergeActionView::RunPostMergeHooks,
            ),
            (
                MergePhaseView::RunningPostMergeHooks,
                MergeEventView::PostMergeHooksRan(PostMergeHookOutcome::Stopped),
            ) => merge_failed(MergeErrorView::PostMergeStopped),
            _ => merge_finished(),
        }
    }
}

/// A merge that failed says so.
fn fail(error: MergeError) -> (res: (MergePhase, MergeAction))
    ensures
        (res.0@, res.1@) == merge_failed(error@),
{
    let mut text: String = "Merge failed: ".to_string();
    let message: String = error.message();
    text.append(message.as_str());
    let action = MergeAction::SendError {
        message: text,
        codex_error_info: Some(CodexErrorInfo::Other),
    };
    (MergePhase::SendingError, action)
}

/// Reading the source.
fn read_source(request: &MergeRequest) -> (res: MergeAction)
    ensures
        res@ == reading(request@),
{
    match &request.source_rollout_path {
        Some(rollout_path) => MergeAction::ReadThreadByRolloutPath {
            rollout_path: rollout_path.clone(),
            with_archived: true,
            with_history: true,
        },
        None => MergeAction::ReadThread {
            thread_id: request.source_thread_id.clone(),
            with_archived: true,
            with_history: true,
        },
    }
}

/// The source has been read.
fn use_source(context: &MergeContext, request: &MergeRequest, source: StoredThread) -> (res: (
    MergePhase,
    MergeAction,
))
    ensures
        (res.0@, res.1@) == source_found(context@, request@, source@),
{
    if !source.thread_id.is(&request.source_thread_id) {
        return fail(
            MergeError::OtherThread {
                found: source.thread_id,
                requested: request.source_thread_id.clone(),
            },
        );
    }
    let metadata: MergeSourceMetadata = merge_source_metadata(
        &context.target_thread_id,
        request,
        &source,
    );
    match source.history {
        Some(lines) => (
            MergePhase::ReconstructingSource(metadata),
            MergeAction::ReconstructHistory(lines),
        ),
        None => fail(MergeError::NoHistory),
    }
}

/// Replacing the history of the target now.
fn replace(
    metadata: MergeSourceMetadata,
    target: Vec<ResponseItem>,
    imported: Vec<ResponseItem>,
) -> (res: (MergePhase, MergeAction))
    ensures
        exists|imported_at: Seq<char>|
            is_utc_second_text(imported_at) && (res.0@, res.1@) == #[trigger] replacing(
                metadata@,
                target.deep_view(),
                imported.deep_view(),
                imported_at,
            ),
{
    let imported_at: String = rfc3339_now();
    let ghost at = imported_at@;
    let (history, item) = merged_history(metadata, &target, imported, imported_at);
    let action = MergeAction::ReplaceHistory { history, reference_context: None, item };
    let res = (MergePhase::ReplacingHistory, action);
    assert((res.0@, res.1@) == replacing(
        metadata@,
        target.deep_view(),
        imported.deep_view(),
        at,
    ));
    res
}

impl MergeTask {
    /// A task that does what is asked for.
    pub fn new(request: MergeRequest) -> (res: Self)
        ensures
            res@ == request@,
    {
        MergeTask { request }
    }

    /// The kind of the task.
    pub fn kind(&self) -> (res: TaskKind)
        ensures
            res == TaskKind::Merge,
    {
        TaskKind::Merge
    }

    /// The name that the task is traced under.
    pub fn span_name(&self) -> (res: &'static str)
        ensures
            res@ == "session_task.merge"@,
    {
        "session_task.merge"
    }

    /// Begins the merge. The turn is announced first.
    pub fn start(&self, context: MergeContext) -> (res: (MergeRun, MergeAction))
        ensures
            res.0@ == (MergeRunView {
                context: context@,
                request: self@,
                phase: MergePhaseView::AnnouncingTurn,
            }),
            res.1@ == MergeActionView::AnnounceTurn(context@.turn_started()),
    {
        let event: TurnStartedEvent = context.turn_started();
        let run = MergeRun {
            context,
            request: self.request.clone(),
            phase: MergePhase::AnnouncingTurn,
        };
        (run, MergeAction::AnnounceTurn(event))
    }
}

impl MergeRun {
    /// Whether an event is what the merge waits for.
    pub fn expects(&self, event: &MergeEvent) -> (res: bool)
        ensures
            res == self@.awaits(event@),
    {
        match (&self.phase, event) {
            (MergePhase::RunningPreMergeHooks, MergeEvent::PreMergeHooksRan(_)) => true,
            (MergePhase::ReadingSource, MergeEvent::SourceRead(_)) => true,
            (MergePhase::ReconstructingSource(_), MergeEvent::HistoryReconstructed(_)) => true,
            (MergePhase::Compacting(_, _), MergeEvent::Compacted(_)) => true,
            (MergePhase::ProcessingCompacted(_), MergeEvent::CompactedProcessed(_)) => true,
            (MergePhase::ReadingTarget(_, _), MergeEvent::TargetHistoryRead(_)) => true,
            (MergePhase::RunningPostMergeHooks, MergeEvent::PostMergeHooksRan(_)) => true,
            (MergePhase::AnnouncingTurn, MergeEvent::Done) => true,
            (MergePhase::CountingMerge, MergeEvent::Done) => true,
            (MergePhase::ReplacingHistory, MergeEvent::Done) => true,
            (MergePhase::RecomputingTokenUsage, MergeEvent::Done) => true,
            (MergePhase::SendingError, MergeEvent::Done) => true,
            _ => false,
        }
    }

    /// Goes on after an event.
    pub fn step(self, event: MergeEvent) -> (res: (MergeRun, MergeAction))
        requires
            self@.awaits(event@),
        ensures
            res.0@.context == self@.context,
            res.0@.request == self@.request,
            exists|imported_at: Seq<char>|
                is_utc_second_text(imported_at) && (res.0@.phase, res.1@)
                    == #[trigger] self@.after(event@, imported_at),
    {
        let ghost this = self@;
        let ghost happened = event@;
        let ghost mut imported_at: Seq<char> = Seq::empty();
        proof {
            imported_at = some_utc_second_text();
        }
        let context: MergeContext = self.context;
        let request: MergeRequest = self.request;
        let (phase, action) = match (self.phase, event) {
            (MergePhase::AnnouncingTurn, MergeEvent::Done) => if context.remote_compact_provider
                && context.remote_compaction_v2 {
                (MergePhase::CountingMerge, MergeAction::CountMerge(MERGE_METRIC.to_string()))
            } else {
                fail(MergeError::NoRemoteCompaction)
            },
            (MergePhase::CountingMerge, MergeEvent::Done) => (
                MergePhase::RunningPreMergeHooks,
                MergeAction::RunPreMergeHooks,
            ),
            (
                MergePhase::RunningPreMergeHooks,
                MergeEvent::PreMergeHooksRan(PreMergeHookOutcome::Continue),
            ) => (MergePhase::ReadingSource, read_source(&request)),
            (
                MergePhase::RunningPreMergeHooks,
                MergeEvent::PreMergeHooksRan(PreMergeHookOutcome::Stopped { reason }),
            ) => fail(MergeError::PreMergeStopped(reason)),
            (MergePhase::ReadingSource, MergeEvent::SourceRead(Ok(source))) => use_source(
                &context,
                &request,
                source,
            ),
            (MergePhase::ReadingSource, MergeEvent::SourceRead(Err(message))) => fail(
                MergeError::Outside(message),
            ),
            (
                MergePhase::ReconstructingSource(metadata),
                MergeEvent::HistoryReconstructed(history),
            ) => {
                let prompt: Prompt = merge_compact_prompt(
                    &history,
                    as_text(&request.user_instruction),
                    &context.personality,
                );
                (
                    MergePhase::Compacting(metadata, history),
                    MergeAction::Compact { prompt, turn_metadata_header: None },
                )
            },
            (MergePhase::Compacting(metadata, history), MergeEvent::Compacted(Ok(output))) => (
                MergePhase::ProcessingCompacted(metadata),
                MergeAction::ProcessCompacted {
                    prompt_input: history,
                    compaction_output: output,
                    inject_initial_context: false,
                },
            ),
            (MergePhase::Compacting(_, _), MergeEvent::Compacted(Err(message))) => fail(
                MergeError::Outside(message),
            ),
            (
                MergePhase::ProcessingCompacted(metadata),
                MergeEvent::CompactedProcessed(imported),
            ) => (
                MergePhase::ReadingTarget(metadata, imported),
                MergeAction::ReadTargetHistory,
            ),
            (
                MergePhase::ReadingTarget(metadata, imported),
                MergeEvent::TargetHistoryRead(target),
            ) => {
                let ghost views = (metadata@, target.deep_view(), imported.deep_view());
                let next = replace(metadata, target, imported);
                proof {
                    imported_at = choose|at: Seq<char>|
                        is_utc_second_text(at) && (next.0@, next.1@) == #[trigger] replacing(
                            views.0,
                            views.1,
                            views.2,
                            at,
                        );
                }
                next
            },
            (MergePhase::ReplacingHistory, MergeEvent::Done) => (
                MergePhase::RecomputingTokenUsage,
                MergeAction::RecomputeTokenUsage,
            ),
            (MergePhase::RecomputingTokenUsage, MergeEvent::Done) => (
                MergePhase::RunningPostMergeHooks,
                MergeAction::RunPostMergeHooks,
            ),
            (
                MergePhase::RunningPostMergeHooks,
                MergeEvent::PostMergeHooksRan(PostMergeHookOutcome::Stopped),
            ) => fail(MergeError::PostMergeStopped),
            _ => (MergePhase::Finished, MergeAction::Finish(None)),
        };
        assert((phase@, action@) == this.after(happened, imported_at));
        (MergeRun { context, request, phase }, action)
    }
}

} // verus!

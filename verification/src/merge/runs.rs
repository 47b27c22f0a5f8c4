//! What holds of every run of a merge, whatever happens outside.
use crate::merge::record::{history_of, merged_of, metadata_of, prompt_of};
use crate::merge::task::{
    merge_failed, reading, replacing, CodexErrorInfo, MergeActionView, MergeContextView,
    MergeErrorView, MergeEventView, MergePhaseView, MergeRunView, PostMergeHookOutcome,
    PreMergeView, MERGE_METRIC,
};
use crate::merge::types::{ItemView, MergeRequestView, ThreadView};
use vstd::prelude::*;

verus! {

/// An event, and the moment of a replacement that follows it.
pub struct MergeInput {
    pub event: MergeEventView,
    pub imported_at: Seq<char>,
}

/// A run of a merge so far: where it stands, and what it has said to do.
pub struct MergeTrace {
    pub run: MergeRunView,
    pub actions: Seq<MergeActionView>,
}

/// The run of a merge over what happens outside.
pub open spec fn merge_run(
    context: MergeContextView,
    request: MergeRequestView,
    inputs: Seq<MergeInput>,
) -> MergeTrace
    decreases inputs.len(),
{
    if inputs.len() == 0 {
        MergeTrace {
            run: MergeRunView { context, request, phase: MergePhaseView::AnnouncingTurn },
            actions: seq![MergeActionView::AnnounceTurn(context.turn_started())],
        }
    } else {
        let before = merge_run(context, request, inputs.drop_last());
        let next = before.run.after(inputs.last().event, inputs.last().imported_at);
        MergeTrace {
            run: MergeRunView { context, request, phase: next.0 },
            actions: before.actions.push(next.1),
        }
    }
}

/// Whether each event is one that the merge waits for when it happens.
pub open spec fn merge_fits(
    context: MergeContextView,
    request: MergeRequestView,
    inputs: Seq<MergeInput>,
) -> bool
    decreases inputs.len(),
{
    inputs.len() > 0 ==> {
        &&& merge_fits(context, request, inputs.drop_last())
        &&& merge_run(context, request, inputs.drop_last()).run.awaits(inputs.last().event)
    }
}

/// Whether a source can be merged on request: it is the thread that was asked for, and its
/// history is there.
pub open spec fn is_requested(request: MergeRequestView, source: ThreadView) -> bool {
    source.thread_id == request.source_thread_id && source.history is Some
}

/// Whether the first `n` things that a merge depends on went well: there is remote compaction,
/// the hooks did not stop it, the source was read and can be merged, and it was compacted.
pub open spec fn passed(
    context: MergeContextView,
    request: MergeRequestView,
    inputs: Seq<MergeInput>,
    n: int,
) -> bool {
    &&& n <= inputs.len()
    &&& n >= 1 ==> context.can_merge()
    &&& n >= 3 ==> inputs[2].event == MergeEventView::PreMergeHooksRan(PreMergeView::Continue)
    &&& n >= 4 ==> (inputs[3].event matches MergeEventView::SourceRead(Ok(source))
        && is_requested(request, source))
    &&& n >= 5 ==> inputs[4].event is HistoryReconstructed
    &&& n >= 6 ==> (inputs[5].event matches MergeEventView::Compacted(Ok(_)))
    &&& n >= 7 ==> inputs[6].event is CompactedProcessed
    &&& n >= 8 ==> inputs[7].event is TargetHistoryRead
}

/// The source that was read.
pub open spec fn source_read(inputs: Seq<MergeInput>) -> ThreadView {
    inputs[3].event->SourceRead_0->Ok_0
}

/// The replacement that follows from what was read and compacted.
pub open spec fn due_replacement(
    context: MergeContextView,
    request: MergeRequestView,
    inputs: Seq<MergeInput>,
) -> MergeActionView {
    replacing(
        metadata_of(context.target_thread_id, request, source_read(inputs)),
        inputs[7].event->TargetHistoryRead_0,
        inputs[6].event->CompactedProcessed_0,
        inputs[7].imported_at,
    ).1
}

/// Why an event stops a merge, if it does.
pub open spec fn refusal(request: MergeRequestView, event: MergeEventView) -> Option<
    MergeErrorView,
> {
    match event {
        MergeEventView::PreMergeHooksRan(PreMergeView::Stopped { reason }) => Some(
            MergeErrorView::PreMergeStopped(reason),
        ),
        MergeEventView::SourceRead(Err(message)) => Some(MergeErrorView::Outside(message)),
        MergeEventView::SourceRead(Ok(source)) => if source.thread_id != request.source_thread_id {
            Some(
                MergeErrorView::OtherThread {
                    found: source.thread_id,
                    requested: request.source_thread_id,
                },
            )
        } else if source.history is None {
            Some(MergeErrorView::NoHistory)
        } else {
            None
        },
        MergeEventView::Compacted(Err(message)) => Some(MergeErrorView::Outside(message)),
        MergeEventView::PostMergeHooksRan(PostMergeHookOutcome::Stopped) => Some(
            MergeErrorView::PostMergeStopped,
        ),
        _ => None,
    }
}

/// How a merge has gone so far: it has failed where there is no remote compaction, or where an
/// event stops it.
pub open spec fn merge_outcome(
    context: MergeContextView,
    request: MergeRequestView,
    inputs: Seq<MergeInput>,
) -> Result<(), MergeErrorView>
    decreases inputs.len(),
{
    if !context.can_merge() {
        Err(MergeErrorView::NoRemoteCompaction)
    } else if inputs.len() == 0 {
        Ok(())
    } else {
        match (
            merge_outcome(context, request, inputs.drop_last()),
            refusal(request, inputs.last().event),
        ) {
            (Ok(_), Some(error)) => Err(error),
            (before, _) => before,
        }
    }
}

/// Whether a run has not replaced the history of the target.
pub open spec fn keeps_history(trace: MergeTrace) -> bool {
    forall|k: int| 0 <= k < trace.actions.len() ==> !(#[trigger] trace.actions[k] is ReplaceHistory)
}

/// Whether a run has replaced the history of the target once, when it was due.
pub open spec fn replaced_once(
    context: MergeContextView,
    request: MergeRequestView,
    inputs: Seq<MergeInput>,
) -> bool {
    let trace = merge_run(context, request, inputs);
    &&& passed(context, request, inputs, 8)
    &&& trace.actions.len() > 8
    &&& trace.actions[8] == due_replacement(context, request, inputs)
    &&& forall|k: int|
        0 <= k < trace.actions.len() && k != 8 ==> !(
        #[trigger] trace.actions[k] is ReplaceHistory)
}

/// The place of a phase on the way of a merge on which nothing fails.
spec fn stage(phase: MergePhaseView) -> int {
    match phase {
        MergePhaseView::AnnouncingTurn => 0,
        MergePhaseView::CountingMerge => 1,
        MergePhaseView::RunningPreMergeHooks => 2,
        MergePhaseView::ReadingSource => 3,
        MergePhaseView::ReconstructingSource(_) => 4,
        MergePhaseView::Compacting(_, _) => 5,
        MergePhaseView::ProcessingCompacted(_) => 6,
        MergePhaseView::ReadingTarget(_, _) => 7,
        MergePhaseView::ReplacingHistory => 8,
        MergePhaseView::RecomputingTokenUsage => 9,
        MergePhaseView::RunningPostMergeHooks => 10,
        _ => -1,
    }
}

/// What is known of a run in each phase.
spec fn standing(
    context: MergeContextView,
    request: MergeRequestView,
    inputs: Seq<MergeInput>,
) -> bool {
    let trace = merge_run(context, request, inputs);
    let at = stage(trace.run.phase);
    let n = trace.actions.len() as int;
    &&& n == inputs.len() + 1
    &&& trace.run.context == context
    &&& trace.run.request == request
    &&& trace.actions[0] == MergeActionView::AnnounceTurn(context.turn_started())
    &&& forall|k: int| 0 < k < n ==> !(#[trigger] trace.actions[k] is AnnounceTurn)
    &&& at >= 1 ==> merge_outcome(context, request, inputs) is Ok
    &&& at >= 0 ==> inputs.len() == at && passed(context, request, inputs, at)
    &&& 0 <= at < 8 ==> keeps_history(trace)
    &&& at >= 8 ==> replaced_once(context, request, inputs)
    &&& at >= 0 ==> forall|k: int| 0 <= k < n ==> !(#[trigger] trace.actions[k] is SendError)
    &&& match trace.run.phase {
        MergePhaseView::ReconstructingSource(metadata) => metadata == metadata_of(
            context.target_thread_id,
            request,
            source_read(inputs),
        ),
        MergePhaseView::Compacting(metadata, _) => metadata == metadata_of(
            context.target_thread_id,
            request,
            source_read(inputs),
        ),
        MergePhaseView::ProcessingCompacted(metadata) => metadata == metadata_of(
            context.target_thread_id,
            request,
            source_read(inputs),
        ),
        MergePhaseView::ReadingTarget(metadata, imported) => {
            &&& metadata == metadata_of(context.target_thread_id, request, source_read(inputs))
            &&& imported == inputs[6].event->CompactedProcessed_0
        },
        MergePhaseView::SendingError => {
            &&& merge_outcome(context, request, inputs) matches Err(error) && trace.actions[n - 1]
                == merge_failed(error).1
            &&& keeps_history(trace) || (replaced_once(context, request, inputs)
                && trace.actions[n - 1] == merge_failed(MergeErrorView::PostMergeStopped).1)
            &&& forall|k: int|
                0 <= k < n - 1 ==> !(#[trigger] trace.actions[k] is SendError)
        },
        MergePhaseView::Finished => {
            &&& trace.actions[n - 1] == MergeActionView::Finish(None)
            &&& n > 1
            &&& match merge_outcome(context, request, inputs) {
                Ok(_) => !(trace.actions[n - 2] is SendError),
                Err(error) => trace.actions[n - 2] == merge_failed(error).1,
            }
            &&& trace.actions[n - 2] is SendError || replaced_once(context, request, inputs)
            &&& keeps_history(trace) || replaced_once(context, request, inputs)
            &&& trace.actions[n - 2] is SendError || inputs.last().event
                == MergeEventView::PostMergeHooksRan(PostMergeHookOutcome::Continue)
            &&& forall|k: int|
                0 <= k < n - 2 ==> !(#[trigger] trace.actions[k] is SendError)
            &&& trace.actions[n - 2] is SendError && replaced_once(context, request, inputs)
                ==> trace.actions[n - 2] == merge_failed(MergeErrorView::PostMergeStopped).1
        },
        _ => true,
    }
}

proof fn lemma_standing(
    context: MergeContextView,
    request: MergeRequestView,
    inputs: Seq<MergeInput>,
)
    requires
        merge_fits(context, request, inputs),
    ensures
        standing(context, request, inputs),
    decreases inputs.len(),
{
    if inputs.len() > 0 {
        let front = inputs.drop_last();
        lemma_standing(context, request, front);
        let before = merge_run(context, request, front);
        let trace = merge_run(context, request, inputs);
        assert forall|k: int| 0 <= k < front.len() implies #[trigger] inputs[k] == front[k] by {}
        assert forall|k: int| 0 <= k < before.actions.len() implies #[trigger] trace.actions[k]
            == before.actions[k] by {}
        assert(passed(context, request, front, 8) ==> passed(context, request, inputs, 8));
        if replaced_once(context, request, front) {
            assert(due_replacement(context, request, inputs) == due_replacement(
                context,
                request,
                front,
            ));
        }
    }
}

/// The turn is announced before anything else, by the event of this turn, and only once.
pub proof fn law_turn_is_announced_first(
    context: MergeContextView,
    request: MergeRequestView,
    inputs: Seq<MergeInput>,
)
    requires
        merge_fits(context, request, inputs),
    ensures
        merge_run(context, request, inputs).actions.len() == inputs.len() + 1,
        merge_run(context, request, inputs).actions[0] == MergeActionView::AnnounceTurn(
            context.turn_started(),
        ),
        forall|k: int|
            0 < k < merge_run(context, request, inputs).actions.len() ==> !(#[trigger] merge_run(
                context,
                request,
                inputs,
            ).actions[k] is AnnounceTurn),
{
    lemma_standing(context, request, inputs);
}

/// The history of the target is replaced at most once, and only after there was remote
/// compaction, the hooks before the merge let it go on, the source was read, was the thread that
/// was asked for and had its history, and was compacted; it is replaced by what the target had,
/// the framing and what was imported.
pub proof fn law_history_is_replaced_when_due(
    context: MergeContextView,
    request: MergeRequestView,
    inputs: Seq<MergeInput>,
)
    requires
        merge_fits(context, request, inputs),
    ensures
        keeps_history(merge_run(context, request, inputs)) || replaced_once(
            context,
            request,
            inputs,
        ),
{
    lemma_standing(context, request, inputs);
}

/// The record of a merge holds the very history that replaces the target's.
pub proof fn law_record_holds_the_history(
    context: MergeContextView,
    request: MergeRequestView,
    inputs: Seq<MergeInput>,
    k: int,
)
    requires
        merge_fits(context, request, inputs),
        0 <= k < merge_run(context, request, inputs).actions.len(),
    ensures
        merge_run(context, request, inputs).actions[k] matches MergeActionView::ReplaceHistory {
            history,
            reference_context,
            item,
        } ==> {
            &&& reference_context is None
            &&& item.replacement_history == history
            &&& item.target_thread_id == context.target_thread_id
            &&& item.source_thread_id == request.source_thread_id
            &&& item.user_instruction == request.user_instruction
            &&& item.conflict_warnings.len() == 0
        },
{
    lemma_standing(context, request, inputs);
}

/// A merge that failed has not touched the history of the target, unless it was a hook after the
/// merge that stopped it.
pub proof fn law_failed_merge_changes_nothing(
    context: MergeContextView,
    request: MergeRequestView,
    inputs: Seq<MergeInput>,
)
    requires
        merge_fits(context, request, inputs),
    ensures
        ({
            let trace = merge_run(context, request, inputs);
            trace.actions.last() is SendError ==> keeps_history(trace) || trace.actions.last()
                == merge_failed(MergeErrorView::PostMergeStopped).1
        }),
{
    lemma_standing(context, request, inputs);
    if inputs.len() > 0 {
        lemma_standing(context, request, inputs.drop_last());
    }
}

/// A merge that has finished has sent an error event exactly where it failed: once, just before
/// its end, with why it failed and as an error of no kind that is told apart. Where it did not
/// fail, it has replaced the history of the target and been let go on by the hooks after it. It
/// leaves no message of the agent.
pub proof fn law_merge_succeeds_or_says_why_not(
    context: MergeContextView,
    request: MergeRequestView,
    inputs: Seq<MergeInput>,
)
    requires
        merge_fits(context, request, inputs),
        merge_run(context, request, inputs).run.phase is Finished,
    ensures
        ({
            let trace = merge_run(context, request, inputs);
            let n = trace.actions.len() as int;
            &&& n > 1
            &&& trace.actions[n - 1] == MergeActionView::Finish(None)
            &&& forall|k: int| 0 <= k < n - 2 ==> !(#[trigger] trace.actions[k] is SendError)
            &&& match merge_outcome(context, request, inputs) {
                Ok(_) => {
                    &&& !(trace.actions[n - 2] is SendError)
                    &&& replaced_once(context, request, inputs)
                    &&& inputs.last().event == MergeEventView::PostMergeHooksRan(
                        PostMergeHookOutcome::Continue,
                    )
                },
                Err(error) => {
                    &&& trace.actions[n - 2] == (MergeActionView::SendError {
                        message: "Merge failed: "@ + error.words(),
                        codex_error_info: Some(CodexErrorInfo::Other),
                    })
                    &&& keeps_history(trace) || trace.actions[n - 2] == merge_failed(
                        MergeErrorView::PostMergeStopped,
                    ).1
                },
            }
        }),
{
    lemma_standing(context, request, inputs);
}

/// A merge waits for what it said to do, and for nothing else; at its end, for nothing.
pub proof fn law_merge_waits_for_what_it_said(
    context: MergeContextView,
    request: MergeRequestView,
    inputs: Seq<MergeInput>,
    event: MergeEventView,
)
    requires
        merge_fits(context, request, inputs),
    ensures
        merge_run(context, request, inputs).run.awaits(event) <==> match merge_run(
            context,
            request,
            inputs,
        ).actions.last() {
            MergeActionView::RunPreMergeHooks => event is PreMergeHooksRan,
            MergeActionView::ReadThreadByRolloutPath { .. } => event is SourceRead,
            MergeActionView::ReadThread { .. } => event is SourceRead,
            MergeActionView::ReconstructHistory(_) => event is HistoryReconstructed,
            MergeActionView::Compact { .. } => event is Compacted,
            MergeActionView::ProcessCompacted { .. } => event is CompactedProcessed,
            MergeActionView::ReadTargetHistory => event is TargetHistoryRead,
            MergeActionView::RunPostMergeHooks => event is PostMergeHooksRan,
            MergeActionView::Finish(_) => false,
            _ => event is Done,
        },
{
    if inputs.len() > 0 {
        lemma_standing(context, request, inputs.drop_last());
    }
}

/// How far a phase is from the end.
pub open spec fn merge_distance(phase: MergePhaseView) -> int {
    match phase {
        MergePhaseView::AnnouncingTurn => 12,
        MergePhaseView::CountingMerge => 11,
        MergePhaseView::RunningPreMergeHooks => 10,
        MergePhaseView::ReadingSource => 9,
        MergePhaseView::ReconstructingSource(_) => 8,
        MergePhaseView::Compacting(_, _) => 7,
        MergePhaseView::ProcessingCompacted(_) => 6,
        MergePhaseView::ReadingTarget(_, _) => 5,
        MergePhaseView::ReplacingHistory => 4,
        MergePhaseView::RecomputingTokenUsage => 3,
        MergePhaseView::RunningPostMergeHooks => 2,
        MergePhaseView::SendingError => 1,
        MergePhaseView::Finished => 0,
    }
}

/// Every event that a merge waits for brings it nearer to its end, and it is at its end exactly
/// when nothing is left to do: a merge always comes to an end.
pub proof fn law_merge_comes_to_an_end(
    run: MergeRunView,
    event: MergeEventView,
    imported_at: Seq<char>,
)
    requires
        run.awaits(event),
    ensures
        ({
            let next = run.after(event, imported_at);
            &&& 0 <= merge_distance(next.0) < merge_distance(run.phase)
            &&& next.0 is Finished <==> next.1 is Finish
        }),
{
}

/// Going on by one input.
proof fn lemma_merge_run_push(
    context: MergeContextView,
    request: MergeRequestView,
    inputs: Seq<MergeInput>,
    input: MergeInput,
)
    requires
        merge_fits(context, request, inputs),
        merge_run(context, request, inputs).run.awaits(input.event),
    ensures
        merge_fits(context, request, inputs.push(input)),
        ({
            let before = merge_run(context, request, inputs);
            let next = before.run.after(input.event, input.imported_at);
            let trace = merge_run(context, request, inputs.push(input));
            &&& trace.run == (MergeRunView { context, request, phase: next.0 })
            &&& trace.actions == before.actions.push(next.1)
        }),
{
    assert(inputs.push(input).drop_last() =~= inputs);
}

/// Without remote compaction a merge announces its turn, says that it failed, and does nothing
/// else.
pub proof fn law_no_merge_without_remote_compaction(
    context: MergeContextView,
    request: MergeRequestView,
    imported_at: Seq<char>,
)
    requires
        !context.can_merge(),
    ensures
        ({
            let done = MergeInput { event: MergeEventView::Done, imported_at };
            let inputs = seq![done, done];
            &&& merge_fits(context, request, inputs)
            &&& merge_run(context, request, inputs).actions == seq![
                MergeActionView::AnnounceTurn(context.turn_started()),
                merge_failed(MergeErrorView::NoRemoteCompaction).1,
                MergeActionView::Finish(None),
            ]
        }),
{
    let done = MergeInput { event: MergeEventView::Done, imported_at };
    let first = Seq::<MergeInput>::empty().push(done);
    lemma_merge_run_push(context, request, Seq::empty(), done);
    lemma_merge_run_push(context, request, first, done);
    assert(first.push(done) =~= seq![done, done]);
    assert(merge_run(context, request, first.push(done)).actions =~= seq![
        MergeActionView::AnnounceTurn(context.turn_started()),
        merge_failed(MergeErrorView::NoRemoteCompaction).1,
        MergeActionView::Finish(None),
    ]);
}

/// A merge on which nothing fails does exactly this: announce the turn, be counted, run the hooks
/// before it, read the source, reconstruct its history, have it compacted, process what came of
/// it, read the history of the target, replace it, count the tokens anew, run the hooks after it.
pub proof fn law_merge_run(
    context: MergeContextView,
    request: MergeRequestView,
    source: ThreadView,
    source_history: Seq<ItemView>,
    output: ItemView,
    imported: Seq<ItemView>,
    target: Seq<ItemView>,
    imported_at: Seq<char>,
)
    requires
        context.can_merge(),
        is_requested(request, source),
    ensures
        ({
            let metadata = metadata_of(context.target_thread_id, request, source);
            let history = history_of(metadata, target, imported);
            let done = MergeEventView::Done;
            let events = seq![
                done,
                done,
                MergeEventView::PreMergeHooksRan(PreMergeView::Continue),
                MergeEventView::SourceRead(Ok(source)),
                MergeEventView::HistoryReconstructed(source_history),
                MergeEventView::Compacted(Ok(output)),
                MergeEventView::CompactedProcessed(imported),
                MergeEventView::TargetHistoryRead(target),
                done,
                done,
                MergeEventView::PostMergeHooksRan(PostMergeHookOutcome::Continue),
            ];
            let inputs = Seq::new(
                events.len(),
                |i: int| MergeInput { event: events[i], imported_at },
            );
            &&& merge_fits(context, request, inputs)
            &&& merge_run(context, request, inputs).actions == seq![
                MergeActionView::AnnounceTurn(context.turn_started()),
                MergeActionView::CountMerge(MERGE_METRIC@),
                MergeActionView::RunPreMergeHooks,
                reading(request),
                MergeActionView::ReconstructHistory(source.history->0),
                MergeActionView::Compact {
                    prompt: prompt_of(
                        source_history,
                        request.user_instruction,
                        context.personality,
                    ),
                    turn_metadata_header: None,
                },
                MergeActionView::ProcessCompacted {
                    prompt_input: source_history,
                    compaction_output: output,
                    inject_initial_context: false,
                },
                MergeActionView::ReadTargetHistory,
                MergeActionView::ReplaceHistory {
                    history,
                    reference_context: None,
                    item: merged_of(metadata, history, imported_at),
                },
                MergeActionView::RecomputeTokenUsage,
                MergeActionView::RunPostMergeHooks,
                MergeActionView::Finish(None),
            ]
        }),
{
    let done = MergeInput { event: MergeEventView::Done, imported_at };
    let i3 = MergeInput {
        event: MergeEventView::PreMergeHooksRan(PreMergeView::Continue),
        imported_at,
    };
    let i4 = MergeInput { event: MergeEventView::SourceRead(Ok(source)), imported_at };
    let i5 = MergeInput {
        event: MergeEventView::HistoryReconstructed(source_history),
        imported_at,
    };
    let i6 = MergeInput { event: MergeEventView::Compacted(Ok(output)), imported_at };
    let i7 = MergeInput { event: MergeEventView::CompactedProcessed(imported), imported_at };
    let i8 = MergeInput { event: MergeEventView::TargetHistoryRead(target), imported_at };
    let i11 = MergeInput {
        event: MergeEventView::PostMergeHooksRan(PostMergeHookOutcome::Continue),
        imported_at,
    };
    let s1 = Seq::<MergeInput>::empty().push(done);
    let s2 = s1.push(done);
    let s3 = s2.push(i3);
    let s4 = s3.push(i4);
    let s5 = s4.push(i5);
    let s6 = s5.push(i6);
    let s7 = s6.push(i7);
    let s8 = s7.push(i8);
    let s9 = s8.push(done);
    let s10 = s9.push(done);
    let s11 = s10.push(i11);
    lemma_merge_run_push(context, request, Seq::empty(), done);
    lemma_merge_run_push(context, request, s1, done);
    lemma_merge_run_push(context, request, s2, i3);
    lemma_merge_run_push(context, request, s3, i4);
    lemma_merge_run_push(context, request, s4, i5);
    lemma_merge_run_push(context, request, s5, i6);
    lemma_merge_run_push(context, request, s6, i7);
    lemma_merge_run_push(context, request, s7, i8);
    lemma_merge_run_push(context, request, s8, done);
    lemma_merge_run_push(context, request, s9, done);
    lemma_merge_run_push(context, request, s10, i11);
    let events = seq![
        done.event,
        done.event,
        i3.event,
        i4.event,
        i5.event,
        i6.event,
        i7.event,
        i8.event,
        done.event,
        done.event,
        i11.event,
    ];
    let inputs = Seq::new(events.len(), |i: int| MergeInput { event: events[i], imported_at });
    assert(inputs =~= s11);
    let metadata = metadata_of(context.target_thread_id, request, source);
    let history = history_of(metadata, target, imported);
    assert(merge_run(context, request, s11).actions =~= seq![
        MergeActionView::AnnounceTurn(context.turn_started()),
        MergeActionView::CountMerge(MERGE_METRIC@),
        MergeActionView::RunPreMergeHooks,
        reading(request),
        MergeActionView::ReconstructHistory(source.history->0),
        MergeActionView::Compact {
            prompt: prompt_of(source_history, request.user_instruction, context.personality),
            turn_metadata_header: None,
        },
        MergeActionView::ProcessCompacted {
            prompt_input: source_history,
            compaction_output: output,
            inject_initial_context: false,
        },
        MergeActionView::ReadTargetHistory,
        MergeActionView::ReplaceHistory {
            history,
            reference_context: None,
            item: merged_of(metadata, history, imported_at),
        },
        MergeActionView::RecomputeTokenUsage,
        MergeActionView::RunPostMergeHooks,
        MergeActionView::Finish(None),
    ]);
}

/// What stops a merge is what it says: the reason of the hooks before it, that the source is
/// another thread, that its history is not there, or what failed outside; nothing else follows.
pub proof fn law_merge_refusals(
    context: MergeContextView,
    request: MergeRequestView,
    inputs: Seq<MergeInput>,
)
    requires
        merge_fits(context, request, inputs),
        inputs.len() > 0,
    ensures
        ({
            let said = merge_run(context, request, inputs).actions.last();
            refusal(request, inputs.last().event) matches Some(error) ==> said == merge_failed(
                error,
            ).1
        }),
{
    lemma_standing(context, request, inputs.drop_last());
}

} // verus!

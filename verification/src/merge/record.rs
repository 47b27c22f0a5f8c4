//! What a merge asks of the model, and the record that it leaves.
use crate::merge::framing::{
    build_target_replacement_history, compact_instructions, framing_text,
    merge_compact_instructions, merge_framing_message, merge_human_summary, replacement,
    summary_text, text_message,
};
use crate::merge::types::{
    clone_items, ItemView, MergeRequest, MergeRequestView, MergeSourceMetadata, MergedItem,
    MergedItemView, MetadataView, Prompt, PromptView, ResponseItem, StoredThread, ThreadId,
    ThreadView,
};
use crate::paths::{clone_path, FilePath};
use crate::text::clone_option;
use vstd::prelude::*;

verus! {

/// Where the context of a source comes from and goes. A working directory that is empty is none;
/// the transcript is the one that the source names, or the one that was asked for.
pub open spec fn metadata_of(
    target_thread_id: Seq<char>,
    request: MergeRequestView,
    source: ThreadView,
) -> MetadataView {
    MetadataView {
        target_thread_id,
        source_thread_id: source.thread_id,
        source_thread_name: source.name,
        source_cwd: if source.cwd.encoded.len() == 0 {
            None
        } else {
            Some(source.cwd)
        },
        source_model: source.model,
        source_rollout_path: if source.rollout_path is Some {
            source.rollout_path
        } else {
            request.source_rollout_path
        },
        user_instruction: request.user_instruction,
    }
}

/// Where the context of a source comes from and goes.
pub fn merge_source_metadata(
    target_thread_id: &ThreadId,
    request: &MergeRequest,
    source: &StoredThread,
) -> (res: MergeSourceMetadata)
    ensures
        res@ == metadata_of(target_thread_id@, request@, source@),
{
    let source_cwd: Option<FilePath> = if source.cwd.is_empty() {
        None
    } else {
        Some(source.cwd.clone())
    };
    let source_rollout_path: Option<FilePath> = match &source.rollout_path {
        Some(path) => Some(path.clone()),
        None => clone_path(&request.source_rollout_path),
    };
    MergeSourceMetadata {
        target_thread_id: target_thread_id.clone(),
        source_thread_id: source.thread_id.clone(),
        source_thread_name: clone_option(&source.name),
        source_cwd,
        source_model: clone_option(&source.model),
        source_rollout_path,
        user_instruction: clone_option(&request.user_instruction),
    }
}

/// What the model is asked: to sum the history of the source up, with no tools.
pub open spec fn prompt_of(
    source_history: Seq<ItemView>,
    user_instruction: Option<Seq<char>>,
    personality: Option<Seq<char>>,
) -> PromptView {
    PromptView {
        input: source_history.push(ItemView::CompactionTrigger),
        tools: Seq::empty(),
        parallel_tool_calls: false,
        base_instructions: compact_instructions(user_instruction),
        personality,
        output_schema: None,
        output_schema_strict: true,
    }
}

/// What the model is asked.
pub fn merge_compact_prompt(
    source_history: &Vec<ResponseItem>,
    user_instruction: Option<&str>,
    personality: &Option<String>,
) -> (res: Prompt)
    ensures
        res@ == prompt_of(
            source_history.deep_view(),
            user_instruction.deep_view(),
            personality.deep_view(),
        ),
{
    let mut input: Vec<ResponseItem> = clone_items(source_history);
    input.push(ResponseItem::CompactionTrigger);
    assert(input.deep_view() =~= source_history.deep_view().push(ItemView::CompactionTrigger));
    let tools: Vec<String> = Vec::new();
    assert(tools.deep_view() =~= Seq::<Seq<char>>::empty());
    Prompt {
        input,
        tools,
        parallel_tool_calls: false,
        base_instructions: merge_compact_instructions(user_instruction),
        personality: clone_option(personality),
        output_schema: None,
        output_schema_strict: true,
    }
}

/// The history of the target after a merge from a source.
pub open spec fn history_of(
    metadata: MetadataView,
    target_history: Seq<ItemView>,
    imported: Seq<ItemView>,
) -> Seq<ItemView> {
    replacement(target_history, text_message("developer"@, framing_text(metadata)), imported)
}

/// The record of a merge at a moment.
pub open spec fn merged_of(
    metadata: MetadataView,
    history: Seq<ItemView>,
    imported_at: Seq<char>,
) -> MergedItemView {
    MergedItemView {
        target_thread_id: metadata.target_thread_id,
        source_thread_id: metadata.source_thread_id,
        source_rollout_path: metadata.source_rollout_path,
        source_thread_name: metadata.source_thread_name,
        source_cwd: metadata.source_cwd,
        source_model: metadata.source_model,
        user_instruction: metadata.user_instruction,
        imported_at,
        replacement_history: history,
        human_summary: summary_text(metadata),
        conflict_warnings: Seq::empty(),
    }
}

/// The history of the target after a merge, and the record of the merge.
pub fn merged_history(
    metadata: MergeSourceMetadata,
    target_history: &Vec<ResponseItem>,
    imported: Vec<ResponseItem>,
    imported_at: String,
) -> (res: (Vec<ResponseItem>, MergedItem))
    ensures
        res.0.deep_view() == history_of(
            metadata@,
            target_history.deep_view(),
            imported.deep_view(),
        ),
        res.1@ == merged_of(metadata@, res.0.deep_view(), imported_at@),
{
    let framing: ResponseItem = merge_framing_message(&metadata);
    let history: Vec<ResponseItem> = build_target_replacement_history(
        target_history,
        framing,
        imported,
    );
    let human_summary: String = merge_human_summary(&metadata);
    let conflict_warnings: Vec<String> = Vec::new();
    assert(conflict_warnings.deep_view() =~= Seq::<Seq<char>>::empty());
    let item = MergedItem {
        target_thread_id: metadata.target_thread_id,
        source_thread_id: metadata.source_thread_id,
        source_rollout_path: metadata.source_rollout_path,
        source_thread_name: metadata.source_thread_name,
        source_cwd: metadata.source_cwd,
        source_model: metadata.source_model,
        user_instruction: metadata.user_instruction,
        imported_at,
        replacement_history: clone_items(&history),
        human_summary,
        conflict_warnings,
    };
    (history, item)
}

} // verus!

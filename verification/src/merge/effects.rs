//! What each part of a merge is made of, in terms of what it was asked for and what was read.
use crate::merge::framing::{
    compact_instructions, framing_text, replacement, summary_text, text_message,
    MERGE_COMPACT_INSTRUCTIONS,
};
use crate::merge::record::{history_of, merged_of, metadata_of, prompt_of};
use crate::merge::task::{reading, MergeActionView, MergeContextView, MergeErrorView};
use crate::merge::types::{
    ContentItem, ContentView, ItemView, MergeRequest, MergeRequestView, MetadataView, PromptView,
    ResponseItem, ThreadView,
};
use crate::text::{lemma_trimmed_empty_iff_blank, trimmed};
use vstd::prelude::*;

verus! {

/// The model is asked about the whole history of the source: every item of it, in order, and then
/// one thing more, the trigger.
pub proof fn law_model_is_asked_about_the_whole_history(
    source_history: Seq<ItemView>,
    instruction: Option<Seq<char>>,
    personality: Option<Seq<char>>,
)
    ensures
        ({
            let input = prompt_of(source_history, instruction, personality).input;
            let n = source_history.len() as int;
            &&& input.len() == n + 1
            &&& input.take(n) == source_history
            &&& input[n] == ItemView::CompactionTrigger
        }),
{
    let input = prompt_of(source_history, instruction, personality).input;
    assert(input.take(source_history.len() as int) =~= source_history);
}

/// The model is given no tools and calls none side by side, is to speak as the session has it, and
/// answers to no schema. What it is told does not depend on the history.
pub proof fn law_model_is_asked_with_no_tools(
    source_history: Seq<ItemView>,
    other_history: Seq<ItemView>,
    instruction: Option<Seq<char>>,
    personality: Option<Seq<char>>,
)
    ensures
        ({
            let prompt = prompt_of(source_history, instruction, personality);
            &&& prompt.tools.len() == 0
            &&& !prompt.parallel_tool_calls
            &&& prompt.personality == personality
            &&& prompt.output_schema is None
            &&& prompt.output_schema_strict
            &&& prompt.base_instructions == compact_instructions(instruction)
            &&& prompt_of(other_history, instruction, personality) == PromptView {
                input: prompt_of(other_history, instruction, personality).input,
                ..prompt
            }
        }),
{
}

/// What the model is told: always the same words; behind them, under a label, what the user says
/// of the merge, without the white space around it, unless it is nothing but white space.
pub proof fn law_model_is_told_what_the_user_says(instruction: Seq<char>)
    ensures
        compact_instructions(None) == MERGE_COMPACT_INSTRUCTIONS@,
        trimmed(instruction).len() == 0 ==> compact_instructions(Some(instruction))
            == MERGE_COMPACT_INSTRUCTIONS@,
        trimmed(instruction).len() > 0 ==> compact_instructions(Some(instruction))
            == MERGE_COMPACT_INSTRUCTIONS@ + "\n\nUser merge instruction:\n"@ + trimmed(
            instruction,
        ),
{
    lemma_trimmed_empty_iff_blank(instruction);
    assert(MERGE_COMPACT_INSTRUCTIONS@ + Seq::<char>::empty() =~= MERGE_COMPACT_INSTRUCTIONS@);
    assert(MERGE_COMPACT_INSTRUCTIONS@ + ("\n\nUser merge instruction:\n"@ + trimmed(instruction))
        =~= MERGE_COMPACT_INSTRUCTIONS@ + "\n\nUser merge instruction:\n"@ + trimmed(instruction));
}

/// The words that the model is told in every merge, whole.
pub proof fn law_model_is_told_these_words()
    ensures
        compact_instructions(None) == r#"You are preparing imported context for a Codex /merge operation.

Summarize the source session as compact runtime state that will be appended into another active target session. Preserve the information the target agent needs to continue after the source session is no longer active: user intent, completed work, decisions, files touched, commands/tests run, remaining issues, and concrete next steps.

Do not treat this as a new user request. Do not issue commands. Do not include generic process commentary. Focus on source-session state that is useful to the target agent."#@,
{
    law_model_is_told_what_the_user_says(Seq::empty());
}

/// Where a merge comes from and goes: the ids, the name and the model are those of the source and
/// of the target; a working directory is there exactly where it is not empty; the transcript is the
/// source's own, or else the one asked for; what the user says is kept as it is.
pub proof fn law_metadata_is_of_source_and_request(
    target_thread_id: Seq<char>,
    request: MergeRequestView,
    source: ThreadView,
)
    ensures
        ({
            let metadata = metadata_of(target_thread_id, request, source);
            &&& metadata.target_thread_id == target_thread_id
            &&& metadata.source_thread_id == source.thread_id
            &&& metadata.source_thread_name == source.name
            &&& metadata.source_model == source.model
            &&& metadata.user_instruction == request.user_instruction
            &&& source.cwd.encoded.len() == 0 ==> metadata.source_cwd is None
            &&& source.cwd.encoded.len() > 0 ==> metadata.source_cwd == Some(source.cwd)
            &&& source.rollout_path is Some ==> metadata.source_rollout_path == source.rollout_path
            &&& source.rollout_path is None ==> metadata.source_rollout_path
                == request.source_rollout_path
        }),
{
}

/// The source is read by the path that was asked for, where there is one, and otherwise by the id
/// that was asked for; in both cases though it is archived, and with its history.
pub proof fn law_source_is_read_as_asked_for(request: MergeRequestView)
    ensures
        match request.source_rollout_path {
            Some(path) => reading(request) == (MergeActionView::ReadThreadByRolloutPath {
                rollout_path: path,
                with_archived: true,
                with_history: true,
            }),
            None => reading(request) == (MergeActionView::ReadThread {
                thread_id: request.source_thread_id,
                with_archived: true,
                with_history: true,
            }),
        },
{
}

/// A history is replaced by what the target had, one item, and what was imported, each whole and
/// in order.
pub proof fn law_replacement_keeps_both_histories(
    target: Seq<ItemView>,
    framing: ItemView,
    imported: Seq<ItemView>,
)
    ensures
        ({
            let history = replacement(target, framing, imported);
            let n = target.len() as int;
            &&& history.len() == n + 1 + imported.len()
            &&& forall|i: int| 0 <= i < n ==> #[trigger] history[i] == target[i]
            &&& history[n] == framing
            &&& forall|i: int|
                0 <= i < imported.len() ==> history[n + 1 + i] == #[trigger] imported[i]
        }),
{
}

/// The framing is one message of the developer, without an id and outside any phase, whose only
/// content is its text, and it stands right behind what the target had.
pub proof fn law_framing_is_a_message_of_the_developer(
    metadata: MetadataView,
    target: Seq<ItemView>,
    imported: Seq<ItemView>,
)
    ensures
        history_of(metadata, target, imported)[target.len() as int] matches ItemView::Message {
            id,
            role,
            content,
            phase,
        } && {
            &&& id is None
            &&& role == "developer"@
            &&& content.len() == 1
            &&& content[0] == (ContentView::InputText { text: framing_text(metadata) })
            &&& phase is None
        },
        text_message("developer"@, framing_text(metadata)) == history_of(
            metadata,
            target,
            imported,
        )[target.len() as int],
{
}

/// A source of which nothing but its threads, and at most a name, is known, without anything said
/// by the user.
pub open spec fn bare_of(metadata: MetadataView) -> MetadataView {
    MetadataView {
        source_cwd: None,
        source_model: None,
        source_rollout_path: None,
        user_instruction: None,
        ..metadata
    }
}

/// The framing of a source of which nothing else is known names it and both threads, and says that
/// what follows is background.
pub proof fn law_framing_of_a_bare_source(metadata: MetadataView)
    ensures
        framing_text(bare_of(metadata)) == "Merged context from source session \""@ + (
        match metadata.source_thread_name {
            Some(name) => name,
            None => "untitled"@,
        }) + "\" (thread "@ + metadata.source_thread_id + ").\n\nTarget thread: "@
            + metadata.target_thread_id + ".\n\nThis is "@
            + "imported background context, not a new user request"@
            + ". Use it to preserve completed work, decisions, files touched, unresolved issues, and next steps from the source session."@
            + "\n\nImported source state follows."@,
{
    let none = Seq::<char>::empty();
    let head = "Merged context from source session \""@ + (match metadata.source_thread_name {
        Some(name) => name,
        None => "untitled"@,
    }) + "\" (thread "@ + metadata.source_thread_id + ").\n\nTarget thread: "@
        + metadata.target_thread_id + ".\n\nThis is "@
        + "imported background context, not a new user request"@
        + ". Use it to preserve completed work, decisions, files touched, unresolved issues, and next steps from the source session."@;
    assert(head + none =~= head);
    assert(head + none + none + none + none == head);
}

/// Whatever else is known of a source stands in its framing behind what is said of every source
/// and before the last words: each thing once, under its label, and in this order; what is not
/// known leaves no trace, and nothing else is said.
pub proof fn law_framing_adds_what_is_known(metadata: MetadataView)
    ensures
        ({
            let last = "\n\nImported source state follows."@;
            let bare = framing_text(bare_of(metadata));
            let head = bare.take(bare.len() - last.len());
            let cwd = match metadata.source_cwd {
                Some(path) => "\n\nSource cwd: "@ + path.shown,
                None => Seq::empty(),
            };
            let model = match metadata.source_model {
                Some(model) => "\nSource model: "@ + model,
                None => Seq::empty(),
            };
            let transcript = match metadata.source_rollout_path {
                Some(path) => "\nSource transcript: "@ + path.shown,
                None => Seq::empty(),
            };
            let words = match metadata.user_instruction {
                Some(text) => if trimmed(text).len() > 0 {
                    "\n\nUser merge instruction: "@ + trimmed(text)
                } else {
                    Seq::empty()
                },
                None => Seq::empty(),
            };
            &&& bare == head + last
            &&& framing_text(metadata) == head + cwd + model + transcript + words + last
        }),
{
    let last = "\n\nImported source state follows."@;
    let bare = framing_text(bare_of(metadata));
    law_framing_of_a_bare_source(metadata);
    if let Some(text) = metadata.user_instruction {
        lemma_trimmed_empty_iff_blank(text);
    }
    let start = "Merged context from source session \""@ + (match metadata.source_thread_name {
        Some(name) => name,
        None => "untitled"@,
    }) + "\" (thread "@ + metadata.source_thread_id + ").\n\nTarget thread: "@
        + metadata.target_thread_id + ".\n\nThis is "@
        + "imported background context, not a new user request"@
        + ". Use it to preserve completed work, decisions, files touched, unresolved issues, and next steps from the source session."@;
    assert(bare == start + last);
    assert(bare.take(bare.len() - last.len()) =~= start);
}

/// The summary for people names the source, as untitled where its name is absent or nothing but
/// white space, and its thread.
pub proof fn law_summary_names_the_source(metadata: MetadataView)
    ensures
        ({
            let name = match metadata.source_thread_name {
                Some(name) => if trimmed(name).len() > 0 {
                    name
                } else {
                    "untitled"@
                },
                None => "untitled"@,
            };
            summary_text(metadata) == "Merged context from source session \""@ + name
                + "\" (thread "@ + metadata.source_thread_id + ")."@
        }),
{
    if let Some(name) = metadata.source_thread_name {
        lemma_trimmed_empty_iff_blank(name);
    }
}

/// The record of a merge says where it came from and went, when, and what it left, with nothing
/// changed, and warns of nothing.
pub proof fn law_record_says_what_was_merged(
    metadata: MetadataView,
    history: Seq<ItemView>,
    imported_at: Seq<char>,
)
    ensures
        ({
            let item = merged_of(metadata, history, imported_at);
            &&& item.target_thread_id == metadata.target_thread_id
            &&& item.source_thread_id == metadata.source_thread_id
            &&& item.source_rollout_path == metadata.source_rollout_path
            &&& item.source_thread_name == metadata.source_thread_name
            &&& item.source_cwd == metadata.source_cwd
            &&& item.source_model == metadata.source_model
            &&& item.user_instruction == metadata.user_instruction
            &&& item.imported_at == imported_at
            &&& item.replacement_history == history
            &&& item.human_summary == summary_text(metadata)
            &&& item.conflict_warnings.len() == 0
        }),
{
}

/// What failed outside, or what a hook gave as its reason, is told in its own words; threads that
/// differ are both named.
pub proof fn law_errors_say_what_happened(
    message: Seq<char>,
    found: Seq<char>,
    requested: Seq<char>,
)
    ensures
        MergeErrorView::Outside(message).words() == message,
        MergeErrorView::PreMergeStopped(Some(message)).words() == message,
        MergeErrorView::PreMergeStopped(None).words() == "PreMerge hook stopped execution"@,
        (MergeErrorView::OtherThread { found, requested }).words()
            == "source rollout belongs to thread "@ + found + ", not requested thread "@
            + requested,
        MergeErrorView::NoHistory.words() == "source thread history was not loaded"@,
        MergeErrorView::PostMergeStopped.words() == "PostMerge hook stopped execution"@,
        MergeErrorView::NoRemoteCompaction.words()
            == "/merge requires the remote compact runtime; no plaintext/local merge fallback is available"@,
{
}

/// A turn is announced by its own id, trace, start, window and mode.
pub proof fn law_turn_is_announced_as_it_is(context: MergeContextView)
    ensures
        ({
            let event = context.turn_started();
            &&& event.turn_id == context.turn_id
            &&& event.trace_id == context.trace_id
            &&& event.started_at == context.started_at
            &&& event.model_context_window == context.model_context_window
            &&& event.collaboration_mode_kind == context.collaboration_mode_kind
        }),
{
}

/// A merge takes both a provider that compacts remotely and the second version of remote
/// compaction.
pub proof fn law_merge_takes_remote_compaction(context: MergeContextView)
    ensures
        context.can_merge() <==> context.remote_compact_provider && context.remote_compaction_v2,
{
}

/// Items of a history that look alike are alike in every part, what is only carried included.
pub proof fn law_item_shows_every_part(a: ResponseItem, b: ResponseItem)
    requires
        a.deep_view() == b.deep_view(),
    ensures
        a is CompactionTrigger <==> b is CompactionTrigger,
        a matches ResponseItem::Message { id, role, content, phase } ==> {
            &&& b is Message
            &&& id.deep_view() == b->id.deep_view()
            &&& role@ == b->role@
            &&& content.deep_view() == b->content.deep_view()
            &&& phase.deep_view() == b->phase.deep_view()
        },
        a matches ResponseItem::Compaction { encrypted_content } ==> b is Compaction
            && encrypted_content@ == b->encrypted_content@,
        a matches ResponseItem::Other { json } ==> b is Other && json@ == b->json@,
{
}

/// Parts of a message that look alike are alike.
pub proof fn law_content_shows_every_part(a: ContentItem, b: ContentItem)
    requires
        a.deep_view() == b.deep_view(),
    ensures
        a matches ContentItem::InputText { text } ==> b is InputText && text@ == b->text@,
        a matches ContentItem::Other { json } ==> b is Other && json@ == b->json@,
{
}

/// Requests that look alike are alike in every part.
pub proof fn law_request_shows_every_part(a: MergeRequest, b: MergeRequest)
    requires
        a@ == b@,
    ensures
        a.source_thread_id.text@ == b.source_thread_id.text@,
        a.source_rollout_path.deep_view() == b.source_rollout_path.deep_view(),
        a.user_instruction.deep_view() == b.user_instruction.deep_view(),
{
}

} // verus!

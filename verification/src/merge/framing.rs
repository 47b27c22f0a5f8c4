//! The words around merged context, and the history that a merge leaves in its target.
use crate::merge::types::{
    clone_items, ContentItem, ContentView, ItemView, MergeSourceMetadata, MetadataView,
    ResponseItem,
};
use crate::paths::{FilePath, PathView};
use crate::text::{as_text, is_blank, lemma_trimmed_empty_iff_blank, trim, trimmed};
use vstd::prelude::*;

verus! {

/// What marks merged context as something that asks for nothing.
pub const BACKGROUND_NOTE: &'static str = "imported background context, not a new user request";

/// What the model is told when it is asked to sum a source session up.
pub const MERGE_COMPACT_INSTRUCTIONS: &'static str =
    r#"You are preparing imported context for a Codex /merge operation.

Summarize the source session as compact runtime state that will be appended into another active target session. Preserve the information the target agent needs to continue after the source session is no longer active: user intent, completed work, decisions, files touched, commands/tests run, remaining issues, and concrete next steps.

Do not treat this as a new user request. Do not issue commands. Do not include generic process commentary. Focus on source-session state that is useful to the target agent."#;

/// A label and a value, where there is a value.
pub open spec fn labelled(label: Seq<char>, value: Option<Seq<char>>) -> Seq<char> {
    match value {
        Some(text) => label + text,
        None => Seq::empty(),
    }
}

/// A label and what is shown of a path, where there is a path.
pub open spec fn labelled_path(label: Seq<char>, path: Option<PathView>) -> Seq<char> {
    match path {
        Some(path) => label + path.shown,
        None => Seq::empty(),
    }
}

/// What an instruction says without the white space around it; nothing where it is blank.
pub open spec fn instruction_said(instruction: Option<Seq<char>>) -> Option<Seq<char>> {
    match instruction {
        Some(text) => if is_blank(text) {
            None
        } else {
            Some(trimmed(text))
        },
        None => None,
    }
}

/// The name of the source session in the framing of its context.
pub open spec fn framed_name(name: Option<Seq<char>>) -> Seq<char> {
    match name {
        Some(name) => name,
        None => "untitled"@,
    }
}

/// The text that stands before merged context.
pub open spec fn framing_text(meta: MetadataView) -> Seq<char> {
    "Merged context from source session \""@ + framed_name(meta.source_thread_name)
        + "\" (thread "@ + meta.source_thread_id + ").\n\nTarget thread: "@ + meta.target_thread_id
        + ".\n\nThis is "@ + BACKGROUND_NOTE@
        + ". Use it to preserve completed work, decisions, files touched, unresolved issues, and next steps from the source session."@
        + labelled_path("\n\nSource cwd: "@, meta.source_cwd) + labelled(
        "\nSource model: "@,
        meta.source_model,
    ) + labelled_path("\nSource transcript: "@, meta.source_rollout_path) + labelled(
        "\n\nUser merge instruction: "@,
        instruction_said(meta.user_instruction),
    ) + "\n\nImported source state follows."@
}

/// A message of one text.
pub open spec fn text_message(role: Seq<char>, text: Seq<char>) -> ItemView {
    ItemView::Message {
        id: None,
        role,
        content: seq![ContentView::InputText { text }],
        phase: None,
    }
}

/// Appends a label and a value, where there is a value.
fn append_labelled(text: &mut String, label: &str, value: &Option<String>)
    ensures
        final(text)@ == old(text)@ + labelled(label@, value.deep_view()),
{
    match value {
        Some(value) => {
            text.append(label);
            text.append(value.as_str());
            assert(text@ =~= old(text)@ + (label@ + value@));
        },
        None => {
            assert(text@ =~= old(text)@ + Seq::<char>::empty());
        },
    }
}

/// Appends a label and what is shown of a path, where there is a path.
fn append_labelled_path(text: &mut String, label: &str, path: &Option<FilePath>)
    ensures
        final(text)@ == old(text)@ + labelled_path(label@, path.deep_view()),
{
    match path {
        Some(path) => {
            text.append(label);
            text.append(path.shown.as_str());
            assert(text@ =~= old(text)@ + (label@ + path@.shown));
        },
        None => {
            assert(text@ =~= old(text)@ + Seq::<char>::empty());
        },
    }
}

/// What an instruction says without the white space around it.
fn said<'a>(instruction: Option<&'a str>) -> (res: Option<&'a str>)
    ensures
        res.deep_view() == instruction_said(instruction.deep_view()),
{
    match instruction {
        Some(text) => {
            let text: &str = text;
            proof {
                lemma_trimmed_empty_iff_blank(text@);
            }
            let words: &str = trim(text);
            if words.is_empty() {
                None
            } else {
                Some(words)
            }
        },
        None => None,
    }
}

/// The message that stands before merged context: where it comes from, and that it is not a new
/// request.
pub fn merge_framing_message(meta: &MergeSourceMetadata) -> (res: ResponseItem)
    ensures
        res@ == text_message("developer"@, framing_text(meta@)),
{
    let mut text: String = "Merged context from source session \"".to_string();
    match &meta.source_thread_name {
        Some(name) => {
            text.append(name.as_str());
        },
        None => {
            text.append("untitled");
        },
    }
    text.append("\" (thread ");
    text.append(meta.source_thread_id.text.as_str());
    text.append(").\n\nTarget thread: ");
    text.append(meta.target_thread_id.text.as_str());
    text.append(".\n\nThis is ");
    text.append(BACKGROUND_NOTE);
    text.append(
        ". Use it to preserve completed work, decisions, files touched, unresolved issues, and next steps from the source session.",
    );
    append_labelled_path(&mut text, "\n\nSource cwd: ", &meta.source_cwd);
    append_labelled(&mut text, "\nSource model: ", &meta.source_model);
    append_labelled_path(&mut text, "\nSource transcript: ", &meta.source_rollout_path);
    let ghost before = text@;
    match said(as_text(&meta.user_instruction)) {
        Some(words) => {
            text.append("\n\nUser merge instruction: ");
            text.append(words);
            assert(text@ =~= before + ("\n\nUser merge instruction: "@ + words@));
        },
        None => {
            assert(text@ =~= before + Seq::<char>::empty());
        },
    }
    text.append("\n\nImported source state follows.");
    let content: Vec<ContentItem> = vec![ContentItem::InputText { text }];
    assert(content.deep_view() =~= seq![ContentView::InputText { text: framing_text(meta@) }]);
    ResponseItem::Message { id: None, role: "developer".to_string(), content, phase: None }
}

/// The history of the target after a merge: its own, then the framing, then what was merged.
pub open spec fn replacement(
    target: Seq<ItemView>,
    framing: ItemView,
    imported: Seq<ItemView>,
) -> Seq<ItemView> {
    target + seq![framing] + imported
}

/// The history of the target after a merge.
pub fn build_target_replacement_history(
    target_history: &Vec<ResponseItem>,
    merge_framing: ResponseItem,
    imported_source_state: Vec<ResponseItem>,
) -> (res: Vec<ResponseItem>)
    ensures
        res.deep_view() == replacement(
            target_history.deep_view(),
            merge_framing@,
            imported_source_state.deep_view(),
        ),
{
    let mut replacement_history: Vec<ResponseItem> = clone_items(target_history);
    let mut imported: Vec<ResponseItem> = imported_source_state;
    replacement_history.push(merge_framing);
    replacement_history.append(&mut imported);
    assert(replacement_history.deep_view() =~= replacement(
        target_history.deep_view(),
        merge_framing@,
        imported_source_state.deep_view(),
    ));
    replacement_history
}

/// What the model is told, with what the user says of the merge.
pub open spec fn compact_instructions(instruction: Option<Seq<char>>) -> Seq<char> {
    MERGE_COMPACT_INSTRUCTIONS@ + labelled(
        "\n\nUser merge instruction:\n"@,
        instruction_said(instruction),
    )
}

/// What the model is told when it is asked to sum a source session up. A blank instruction of
/// the user adds nothing.
pub fn merge_compact_instructions(user_instruction: Option<&str>) -> (res: String)
    ensures
        res@ == compact_instructions(user_instruction.deep_view()),
{
    let mut text: String = MERGE_COMPACT_INSTRUCTIONS.to_string();
    match said(user_instruction) {
        Some(words) => {
            text.append("\n\nUser merge instruction:\n");
            text.append(words);
            assert(text@ =~= MERGE_COMPACT_INSTRUCTIONS@ + ("\n\nUser merge instruction:\n"@
                + words@));
        },
        None => {
            assert(text@ =~= MERGE_COMPACT_INSTRUCTIONS@ + Seq::<char>::empty());
        },
    }
    text
}

/// The name of the source session in the summary for people: one that is blank does not count.
pub open spec fn summary_name(name: Option<Seq<char>>) -> Seq<char> {
    match name {
        Some(name) => if is_blank(name) {
            "untitled"@
        } else {
            name
        },
        None => "untitled"@,
    }
}

/// The summary of a merge for people.
pub open spec fn summary_text(meta: MetadataView) -> Seq<char> {
    "Merged context from source session \""@ + summary_name(meta.source_thread_name)
        + "\" (thread "@ + meta.source_thread_id + ")."@
}

/// The summary of a merge for people.
pub fn merge_human_summary(metadata: &MergeSourceMetadata) -> (res: String)
    ensures
        res@ == summary_text(metadata@),
{
    let mut text: String = "Merged context from source session \"".to_string();
    match &metadata.source_thread_name {
        Some(name) => {
            proof {
                lemma_trimmed_empty_iff_blank(name@);
            }
            if trim(name.as_str()).is_empty() {
                text.append("untitled");
            } else {
                text.append(name.as_str());
            }
        },
        None => {
            text.append("untitled");
        },
    }
    text.append("\" (thread ");
    text.append(metadata.source_thread_id.text.as_str());
    text.append(").");
    text
}

} // verus!

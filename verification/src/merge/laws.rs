//! What holds of the words of a merge and of the history that it leaves.
use crate::merge::framing::{
    compact_instructions, framed_name, framing_text, instruction_said, labelled, labelled_path,
    summary_text, text_message, BACKGROUND_NOTE, MERGE_COMPACT_INSTRUCTIONS,
};
use crate::merge::record::history_of;
use crate::merge::types::{ItemView, MetadataView};
use crate::text::{
    is_blank, lemma_trimmed_empty_iff_blank, lemma_trimmed_is_idempotent, trimmed,
};
use vstd::prelude::*;

verus! {

/// Whether `phrase` stands in `text`, from some place on.
pub open spec fn mentions(text: Seq<char>, phrase: Seq<char>) -> bool {
    exists|at: int|
        0 <= at <= text.len() - phrase.len() && #[trigger] text.subrange(at, at + phrase.len())
            == phrase
}

/// What stands in a text stands in it with more behind it.
proof fn lemma_mentions_with_more(text: Seq<char>, phrase: Seq<char>, more: Seq<char>)
    requires
        mentions(text, phrase),
    ensures
        mentions(text + more, phrase),
{
    let at = choose|at: int|
        0 <= at <= text.len() - phrase.len() && #[trigger] text.subrange(at, at + phrase.len())
            == phrase;
    assert((text + more).subrange(at, at + phrase.len()) =~= phrase);
}

/// A text mentions what was put at its end.
proof fn lemma_mentions_its_end(text: Seq<char>, phrase: Seq<char>)
    ensures
        mentions(text + phrase, phrase),
{
    let at = text.len() as int;
    assert((text + phrase).subrange(at, at + phrase.len()) =~= phrase);
}

/// A merge keeps the history of the target as it was, item by item, before everything else; the
/// framing follows, and then what was imported, item by item, and nothing more.
pub proof fn law_target_is_kept(
    metadata: MetadataView,
    target: Seq<ItemView>,
    imported: Seq<ItemView>,
)
    ensures
        ({
            let history = history_of(metadata, target, imported);
            let n = target.len() as int;
            &&& history.len() == n + 1 + imported.len()
            &&& history.take(n) == target
            &&& history[n] == text_message("developer"@, framing_text(metadata))
            &&& history.skip(n + 1) == imported
        }),
{
    let history = history_of(metadata, target, imported);
    let n = target.len() as int;
    assert(history.take(n) =~= target);
    assert(history.skip(n + 1) =~= imported);
}

/// Merging one source and then another keeps what the first merge left.
pub proof fn law_merges_add_up(
    first: MetadataView,
    second: MetadataView,
    target: Seq<ItemView>,
    imported: Seq<ItemView>,
    more: Seq<ItemView>,
)
    ensures
        history_of(second, history_of(first, target, imported), more) == target + history_of(
            second,
            history_of(first, Seq::empty(), imported),
            more,
        ),
{
    assert(history_of(second, history_of(first, target, imported), more) =~= target + history_of(
        second,
        history_of(first, Seq::empty(), imported),
        more,
    ));
}

/// The framing is a message of the developer that says that what follows is background and no
/// new request, and that names the source, its thread, the thread that it is merged into, and
/// what else is known of it.
pub proof fn law_framing_says_where_it_comes_from(metadata: MetadataView)
    ensures
        mentions(framing_text(metadata), BACKGROUND_NOTE@),
        mentions(framing_text(metadata), framed_name(metadata.source_thread_name)),
        mentions(framing_text(metadata), metadata.source_thread_id),
        mentions(framing_text(metadata), metadata.target_thread_id),
        metadata.source_cwd matches Some(cwd) ==> mentions(framing_text(metadata), cwd.shown),
        metadata.source_model matches Some(model) ==> mentions(framing_text(metadata), model),
        metadata.source_rollout_path matches Some(path) ==> mentions(
            framing_text(metadata),
            path.shown,
        ),
        instruction_said(metadata.user_instruction) matches Some(words) ==> mentions(
            framing_text(metadata),
            words,
        ),
{
    let name = framed_name(metadata.source_thread_name);
    let cwd = labelled_path("\n\nSource cwd: "@, metadata.source_cwd);
    let model = labelled("\nSource model: "@, metadata.source_model);
    let path = labelled_path("\nSource transcript: "@, metadata.source_rollout_path);
    let words = labelled(
        "\n\nUser merge instruction: "@,
        instruction_said(metadata.user_instruction),
    );
    let s0 = "Merged context from source session \""@;
    let s1 = s0 + name;
    let s2 = s1 + "\" (thread "@;
    let s3 = s2 + metadata.source_thread_id;
    let s4 = s3 + ").\n\nTarget thread: "@;
    let s5 = s4 + metadata.target_thread_id;
    let s6 = s5 + ".\n\nThis is "@;
    let s7 = s6 + BACKGROUND_NOTE@;
    let advice = ". Use it to preserve completed work, decisions, files touched, unresolved issues, and next steps from the source session."@;
    let s8 = s7 + advice;
    let s9 = s8 + cwd;
    let s10 = s9 + model;
    let s11 = s10 + path;
    let s12 = s11 + words;
    let last = "\n\nImported source state follows."@;
    assert(framing_text(metadata) == s12 + last);
    assert forall|phrase: Seq<char>| #[trigger] mentions(s11, phrase) implies mentions(
        s12 + last,
        phrase,
    ) by {
        lemma_mentions_with_more(s11, phrase, words);
        lemma_mentions_with_more(s12, phrase, last);
    }
    assert forall|phrase: Seq<char>| #[trigger] mentions(s8, phrase) implies mentions(
        s11,
        phrase,
    ) by {
        lemma_mentions_with_more(s8, phrase, cwd);
        lemma_mentions_with_more(s9, phrase, model);
        lemma_mentions_with_more(s10, phrase, path);
    }
    assert forall|phrase: Seq<char>| #[trigger] mentions(s5, phrase) implies mentions(
        s8,
        phrase,
    ) by {
        lemma_mentions_with_more(s5, phrase, ".\n\nThis is "@);
        lemma_mentions_with_more(s6, phrase, BACKGROUND_NOTE@);
        lemma_mentions_with_more(s7, phrase, advice);
    }
    assert forall|phrase: Seq<char>| #[trigger] mentions(s1, phrase) implies mentions(
        s3,
        phrase,
    ) by {
        lemma_mentions_with_more(s1, phrase, "\" (thread "@);
        lemma_mentions_with_more(s2, phrase, metadata.source_thread_id);
    }
    assert forall|phrase: Seq<char>| #[trigger] mentions(s3, phrase) implies mentions(
        s5,
        phrase,
    ) by {
        lemma_mentions_with_more(s3, phrase, ").\n\nTarget thread: "@);
        lemma_mentions_with_more(s4, phrase, metadata.target_thread_id);
    }
    lemma_mentions_its_end(s0, name);
    lemma_mentions_its_end(s2, metadata.source_thread_id);
    lemma_mentions_its_end(s4, metadata.target_thread_id);
    lemma_mentions_its_end(s6, BACKGROUND_NOTE@);
    lemma_mentions_with_more(s7, BACKGROUND_NOTE@, advice);
    if let Some(cwd) = metadata.source_cwd {
        let text = cwd.shown;
        assert(s9 =~= (s8 + "\n\nSource cwd: "@) + text);
        lemma_mentions_its_end(s8 + "\n\nSource cwd: "@, text);
        lemma_mentions_with_more(s9, text, model);
        lemma_mentions_with_more(s10, text, path);
    }
    if let Some(text) = metadata.source_model {
        assert(s10 =~= (s9 + "\nSource model: "@) + text);
        lemma_mentions_its_end(s9 + "\nSource model: "@, text);
        lemma_mentions_with_more(s10, text, path);
    }
    if let Some(path) = metadata.source_rollout_path {
        let text = path.shown;
        assert(s11 =~= (s10 + "\nSource transcript: "@) + text);
        lemma_mentions_its_end(s10 + "\nSource transcript: "@, text);
    }
    if let Some(text) = instruction_said(metadata.user_instruction) {
        assert(s12 =~= (s11 + "\n\nUser merge instruction: "@) + text);
        lemma_mentions_its_end(s11 + "\n\nUser merge instruction: "@, text);
        lemma_mentions_with_more(s12, text, last);
    }
}

/// A blank instruction counts as none, both in the framing and in what the model is told.
pub proof fn law_blank_instruction_is_none(metadata: MetadataView, instruction: Seq<char>)
    requires
        is_blank(instruction),
    ensures
        compact_instructions(Some(instruction)) == compact_instructions(None),
        framing_text(MetadataView { user_instruction: Some(instruction), ..metadata })
            == framing_text(MetadataView { user_instruction: None, ..metadata }),
{
}

/// White space around an instruction makes no difference, neither in the framing nor in what the
/// model is told.
pub proof fn law_instruction_is_trimmed(metadata: MetadataView, instruction: Seq<char>)
    ensures
        compact_instructions(Some(instruction)) == compact_instructions(
            Some(trimmed(instruction)),
        ),
        framing_text(MetadataView { user_instruction: Some(instruction), ..metadata })
            == framing_text(
            MetadataView { user_instruction: Some(trimmed(instruction)), ..metadata },
        ),
{
    lemma_trimmed_empty_iff_blank(instruction);
    lemma_trimmed_empty_iff_blank(trimmed(instruction));
    lemma_trimmed_is_idempotent(instruction);
}

/// What the model is told begins with the same words whatever the user says; without an
/// instruction they are all, with one it ends with the instruction.
pub proof fn law_instructions_keep_their_words(instruction: Option<Seq<char>>)
    ensures
        ({
            let told = compact_instructions(instruction);
            let n = MERGE_COMPACT_INSTRUCTIONS@.len() as int;
            &&& told.len() >= n
            &&& told.take(n) == MERGE_COMPACT_INSTRUCTIONS@
            &&& match instruction_said(instruction) {
                Some(words) => told.len() > n && told.skip(told.len() - words.len()) == words,
                None => told == MERGE_COMPACT_INSTRUCTIONS@,
            }
        }),
{
    let told = compact_instructions(instruction);
    assert(told.take(MERGE_COMPACT_INSTRUCTIONS@.len() as int) =~= MERGE_COMPACT_INSTRUCTIONS@);
    match instruction_said(instruction) {
        Some(words) => {
            reveal_strlit("\n\nUser merge instruction:\n");
            assert(told.skip(told.len() - words.len()) =~= words);
        },
        None => {
            assert(told =~= MERGE_COMPACT_INSTRUCTIONS@);
        },
    }
}

/// The summary for people is the same for a source without a name and for one with a blank name.
pub proof fn law_blank_name_is_untitled(metadata: MetadataView, name: Seq<char>)
    requires
        is_blank(name),
    ensures
        summary_text(MetadataView { source_thread_name: Some(name), ..metadata }) == summary_text(
            MetadataView { source_thread_name: None, ..metadata },
        ),
{
}

} // verus!

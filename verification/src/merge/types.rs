//! Threads, the items of their histories, and what a merge is asked for and leaves.
use crate::ids::{is_v7_text, now_v7_text};
use crate::paths::{clone_path, FilePath, PathView};
use crate::text::clone_option;
use vstd::prelude::*;

verus! {

/// The id of a thread, as its text.
#[derive(Debug, PartialEq, Eq)]
pub struct ThreadId {
    pub text: String,
}

impl View for ThreadId {
    type V = Seq<char>;

    open spec fn view(&self) -> Seq<char> {
        self.text@
    }
}

impl DeepView for ThreadId {
    type V = Seq<char>;

    open spec fn deep_view(&self) -> Seq<char> {
        self.text@
    }
}

impl Clone for ThreadId {
    fn clone(&self) -> (res: Self)
        ensures
            res@ == self@,
    {
        ThreadId { text: self.text.clone() }
    }
}

impl ThreadId {
    /// A fresh id.
    pub fn new() -> (res: Self)
        ensures
            is_v7_text(res@),
    {
        ThreadId { text: now_v7_text() }
    }

    /// Whether two ids are of one thread.
    pub fn is(&self, other: &ThreadId) -> (res: bool)
        ensures
            res == (self@ == other@),
    {
        self.text == other.text
    }
}

/// A part of a message. `Other` holds the JSON text of a part that is only carried.
#[derive(Debug, PartialEq, Eq)]
pub enum ContentItem {
    InputText { text: String },
    Other { json: String },
}

pub enum ContentView {
    InputText { text: Seq<char> },
    Other { json: Seq<char> },
}

impl View for ContentItem {
    type V = ContentView;

    open spec fn view(&self) -> ContentView {
        match self {
            ContentItem::InputText { text } => ContentView::InputText { text: text@ },
            ContentItem::Other { json } => ContentView::Other { json: json@ },
        }
    }
}

impl DeepView for ContentItem {
    type V = ContentView;

    open spec fn deep_view(&self) -> ContentView {
        self@
    }
}

impl Clone for ContentItem {
    fn clone(&self) -> (res: Self)
        ensures
            res@ == self@,
    {
        match self {
            ContentItem::InputText { text } => ContentItem::InputText { text: text.clone() },
            ContentItem::Other { json } => ContentItem::Other { json: json.clone() },
        }
    }
}

/// An item of a thread's history. `Other` holds the JSON text of an item that is only carried.
#[derive(Debug, PartialEq, Eq)]
pub enum ResponseItem {
    Message {
        id: Option<String>,
        role: String,
        content: Vec<ContentItem>,
        phase: Option<String>,
    },
    Compaction { encrypted_content: String },
    CompactionTrigger,
    Other { json: String },
}

#[verifier::ext_equal]
pub enum ItemView {
    Message {
        id: Option<Seq<char>>,
        role: Seq<char>,
        content: Seq<ContentView>,
        phase: Option<Seq<char>>,
    },
    Compaction { encrypted_content: Seq<char> },
    CompactionTrigger,
    Other { json: Seq<char> },
}

impl View for ResponseItem {
    type V = ItemView;

    open spec fn view(&self) -> ItemView {
        match self {
            ResponseItem::Message { id, role, content, phase } => ItemView::Message {
                id: id.deep_view(),
                role: role@,
                content: content.deep_view(),
                phase: phase.deep_view(),
            },
            ResponseItem::Compaction { encrypted_content } => ItemView::Compaction {
                encrypted_content: encrypted_content@,
            },
            ResponseItem::CompactionTrigger => ItemView::CompactionTrigger,
            ResponseItem::Other { json } => ItemView::Other { json: json@ },
        }
    }
}

impl DeepView for ResponseItem {
    type V = ItemView;

    open spec fn deep_view(&self) -> ItemView {
        self@
    }
}

impl Clone for ResponseItem {
    fn clone(&self) -> (res: Self)
        ensures
            res@ == self@,
    {
        match self {
            ResponseItem::Message { id, role, content, phase } => {
                let parts = content.clone();
                assert(parts.deep_view() =~= content.deep_view());
                ResponseItem::Message {
                    id: clone_option(id),
                    role: role.clone(),
                    content: parts,
                    phase: clone_option(phase),
                }
            },
            ResponseItem::Compaction { encrypted_content } => ResponseItem::Compaction {
                encrypted_content: encrypted_content.clone(),
            },
            ResponseItem::CompactionTrigger => ResponseItem::CompactionTrigger,
            ResponseItem::Other { json } => ResponseItem::Other { json: json.clone() },
        }
    }
}

/// A copy of a history.
pub fn clone_items(items: &Vec<ResponseItem>) -> (res: Vec<ResponseItem>)
    ensures
        res.deep_view() == items.deep_view(),
{
    let res = items.clone();
    assert(res.deep_view() =~= items.deep_view());
    res
}

/// Where the context of a merge comes from, where it goes, and what the user says of it.
#[derive(Debug, PartialEq, Eq)]
pub struct MergeSourceMetadata {
    pub target_thread_id: ThreadId,
    pub source_thread_id: ThreadId,
    pub source_thread_name: Option<String>,
    pub source_cwd: Option<FilePath>,
    pub source_model: Option<String>,
    pub source_rollout_path: Option<FilePath>,
    pub user_instruction: Option<String>,
}

#[verifier::ext_equal]
pub struct MetadataView {
    pub target_thread_id: Seq<char>,
    pub source_thread_id: Seq<char>,
    pub source_thread_name: Option<Seq<char>>,
    pub source_cwd: Option<PathView>,
    pub source_model: Option<Seq<char>>,
    pub source_rollout_path: Option<PathView>,
    pub user_instruction: Option<Seq<char>>,
}

impl View for MergeSourceMetadata {
    type V = MetadataView;

    open spec fn view(&self) -> MetadataView {
        MetadataView {
            target_thread_id: self.target_thread_id@,
            source_thread_id: self.source_thread_id@,
            source_thread_name: self.source_thread_name.deep_view(),
            source_cwd: self.source_cwd.deep_view(),
            source_model: self.source_model.deep_view(),
            source_rollout_path: self.source_rollout_path.deep_view(),
            user_instruction: self.user_instruction.deep_view(),
        }
    }
}

/// What a merge is asked for.
#[derive(Debug, PartialEq, Eq)]
pub struct MergeRequest {
    pub source_thread_id: ThreadId,
    pub source_rollout_path: Option<FilePath>,
    pub user_instruction: Option<String>,
}

#[verifier::ext_equal]
pub struct MergeRequestView {
    pub source_thread_id: Seq<char>,
    pub source_rollout_path: Option<PathView>,
    pub user_instruction: Option<Seq<char>>,
}

impl View for MergeRequest {
    type V = MergeRequestView;

    open spec fn view(&self) -> MergeRequestView {
        MergeRequestView {
            source_thread_id: self.source_thread_id@,
            source_rollout_path: self.source_rollout_path.deep_view(),
            user_instruction: self.user_instruction.deep_view(),
        }
    }
}

impl Clone for MergeRequest {
    fn clone(&self) -> (res: Self)
        ensures
            res@ == self@,
    {
        MergeRequest {
            source_thread_id: self.source_thread_id.clone(),
            source_rollout_path: clone_path(&self.source_rollout_path),
            user_instruction: clone_option(&self.user_instruction),
        }
    }
}

/// A thread as it is stored. Its history, where it was loaded, is the lines of its transcript.
#[derive(Debug, PartialEq, Eq)]
pub struct StoredThread {
    pub thread_id: ThreadId,
    pub name: Option<String>,
    pub cwd: FilePath,
    pub model: Option<String>,
    pub rollout_path: Option<FilePath>,
    pub history: Option<Vec<String>>,
}

#[verifier::ext_equal]
pub struct ThreadView {
    pub thread_id: Seq<char>,
    pub name: Option<Seq<char>>,
    pub cwd: PathView,
    pub model: Option<Seq<char>>,
    pub rollout_path: Option<PathView>,
    pub history: Option<Seq<Seq<char>>>,
}

impl View for StoredThread {
    type V = ThreadView;

    open spec fn view(&self) -> ThreadView {
        ThreadView {
            thread_id: self.thread_id@,
            name: self.name.deep_view(),
            cwd: self.cwd@,
            model: self.model.deep_view(),
            rollout_path: self.rollout_path.deep_view(),
            history: self.history.deep_view(),
        }
    }
}

/// What the model is asked.
#[derive(Debug, PartialEq, Eq)]
pub struct Prompt {
    pub input: Vec<ResponseItem>,
    pub tools: Vec<String>,
    pub parallel_tool_calls: bool,
    pub base_instructions: String,
    pub personality: Option<String>,
    pub output_schema: Option<String>,
    pub output_schema_strict: bool,
}

#[verifier::ext_equal]
pub struct PromptView {
    pub input: Seq<ItemView>,
    pub tools: Seq<Seq<char>>,
    pub parallel_tool_calls: bool,
    pub base_instructions: Seq<char>,
    pub personality: Option<Seq<char>>,
    pub output_schema: Option<Seq<char>>,
    pub output_schema_strict: bool,
}

impl View for Prompt {
    type V = PromptView;

    open spec fn view(&self) -> PromptView {
        PromptView {
            input: self.input.deep_view(),
            tools: self.tools.deep_view(),
            parallel_tool_calls: self.parallel_tool_calls,
            base_instructions: self.base_instructions@,
            personality: self.personality.deep_view(),
            output_schema: self.output_schema.deep_view(),
            output_schema_strict: self.output_schema_strict,
        }
    }
}

/// The record that a merge leaves.
#[derive(Debug, PartialEq, Eq)]
pub struct MergedItem {
    pub target_thread_id: ThreadId,
    pub source_thread_id: ThreadId,
    pub source_rollout_path: Option<FilePath>,
    pub source_thread_name: Option<String>,
    pub source_cwd: Option<FilePath>,
    pub source_model: Option<String>,
    pub user_instruction: Option<String>,
    pub imported_at: String,
    pub replacement_history: Vec<ResponseItem>,
    pub human_summary: String,
    pub conflict_warnings: Vec<String>,
}

#[verifier::ext_equal]
pub struct MergedItemView {
    pub target_thread_id: Seq<char>,
    pub source_thread_id: Seq<char>,
    pub source_rollout_path: Option<PathView>,
    pub source_thread_name: Option<Seq<char>>,
    pub source_cwd: Option<PathView>,
    pub source_model: Option<Seq<char>>,
    pub user_instruction: Option<Seq<char>>,
    pub imported_at: Seq<char>,
    pub replacement_history: Seq<ItemView>,
    pub human_summary: Seq<char>,
    pub conflict_warnings: Seq<Seq<char>>,
}

impl View for MergedItem {
    type V = MergedItemView;

    open spec fn view(&self) -> MergedItemView {
        MergedItemView {
            target_thread_id: self.target_thread_id@,
            source_thread_id: self.source_thread_id@,
            source_rollout_path: self.source_rollout_path.deep_view(),
            source_thread_name: self.source_thread_name.deep_view(),
            source_cwd: self.source_cwd.deep_view(),
            source_model: self.source_model.deep_view(),
            user_instruction: self.user_instruction.deep_view(),
            imported_at: self.imported_at@,
            replacement_history: self.replacement_history.deep_view(),
            human_summary: self.human_summary@,
            conflict_warnings: self.conflict_warnings.deep_view(),
        }
    }
}

} // verus!

//! Types of the Discover screen: focus and dialog states, sources, tags and
//! rules, pending writes, background results, and the file browser entries.
//! Source ids are the store's 64-bit ids; rule and workspace ids are UUIDs
//! held as 128-bit values.
use vstd::prelude::*;
use crate::extraction::{FieldEditFocus, RuleEditorFocus};
use crate::flow::{FlowKey, FlowKeyCode};
use crate::text::{owned, push_char, str_chars, string_from_chars};

verus! {

/// Focus areas within the Discover screen.
#[derive(Debug, Clone, Copy, PartialEq, Eq, Structural)]
pub enum DiscoverFocus {
    Files,
    Sources,
    Tags,
}

/// Which field of the rule dialog has focus.
#[derive(Debug, Clone, Copy, PartialEq, Eq, Structural)]
pub enum RuleDialogFocus {
    Pattern,
    Tag,
}

/// Outcome of a key in a text input field.
#[derive(Debug, Clone, PartialEq, Eq, Structural)]
pub enum TextInputResult {
    /// Enter: commit the input
    Committed,
    /// Esc: cancel the input
    Cancelled,
    /// The input changed; keep editing
    Continue,
    /// The key is not for the input (e.g. Tab)
    NotHandled,
}

/// What a key does to a text input: Enter commits, Esc cancels, Ctrl+U
/// clears, a character is appended, Backspace removes the last character;
/// other keys are not for the input.
pub open spec fn text_input_spec(key: FlowKey, input: Seq<char>) -> (TextInputResult, Seq<char>) {
    match key.code {
        FlowKeyCode::Enter => (TextInputResult::Committed, input),
        FlowKeyCode::Esc => (TextInputResult::Cancelled, input),
        FlowKeyCode::Char(c) => if c == 'u' && key.modifiers.ctrl {
            (TextInputResult::Continue, Seq::empty())
        } else {
            (TextInputResult::Continue, input.push(c))
        },
        FlowKeyCode::Backspace => (TextInputResult::Continue, if input.len() > 0 {
            input.drop_last()
        } else {
            input
        }),
        _ => (TextInputResult::NotHandled, input),
    }
}

/// Applies a key to a text input field and says what the field should do.
pub fn handle_text_input(key: &FlowKey, input: &mut String) -> (r: TextInputResult)
    ensures
        (r, final(input)@) == text_input_spec(*key, old(input)@),
{
    match key.code {
        FlowKeyCode::Enter => TextInputResult::Committed,
        FlowKeyCode::Esc => TextInputResult::Cancelled,
        FlowKeyCode::Char(c) => {
            if c == 'u' && key.modifiers.ctrl {
                *input = String::new();
            } else {
                push_char(input, c);
            }
            TextInputResult::Continue
        },
        FlowKeyCode::Backspace => {
            let chars = str_chars(input.as_str());
            if chars.len() > 0 {
                let kept = crate::text::slice_chars(chars.as_slice(), 0, chars.len() - 1);
                *input = string_from_chars(kept.as_slice());
                proof {
                    assert(kept@ =~= old(input)@.drop_last());
                }
            }
            TextInputResult::Continue
        },
        _ => TextInputResult::NotHandled,
    }
}

/// Rule id; `None` for a rule not saved yet.
#[derive(Debug, Clone, PartialEq, Eq, Structural)]
pub struct RuleId(pub Option<u128>);

impl RuleId {
    pub fn new(id: u128) -> (r: Self)
        ensures
            r.0 == Some(id),
    {
        RuleId(Some(id))
    }

    pub fn unsaved() -> (r: Self)
        ensures
            r.0 is None,
    {
        RuleId(None)
    }

    pub fn is_saved(&self) -> (r: bool)
        ensures
            r == self.0 is Some,
    {
        self.0.is_some()
    }
}

impl Default for RuleId {
    fn default() -> (r: Self)
        ensures
            r.0 is None,
    {
        RuleId::unsaved()
    }
}

/// Which dialog, dropdown or view of the Discover screen is active.
#[derive(Debug, Clone, Copy, PartialEq, Eq, Structural)]
pub enum DiscoverViewState {
    Files,
    Filtering,
    EnteringPath,
    ScanConfirm,
    Tagging,
    CreatingSource,
    BulkTagging,
    SourcesDropdown,
    TagsDropdown,
    RulesManager,
    RuleCreation,
    RuleBuilder,
    SourcesManager,
    SourceEdit,
    SourceDeleteConfirm,
    Scanning,
}

/// A source in the sidebar.
#[derive(Debug, Clone)]
pub struct SourceInfo {
    pub id: i64,
    pub name: String,
    pub path: String,
    pub file_count: usize,
}

/// A tag with its file count ("All files" and "untagged" are special).
#[derive(Debug, Clone)]
pub struct TagInfo {
    pub name: String,
    pub count: usize,
    pub is_special: bool,
}

/// A tagging rule.
#[derive(Debug, Clone)]
pub struct RuleInfo {
    pub id: RuleId,
    pub pattern: String,
    pub tag: String,
    pub priority: i32,
    pub enabled: bool,
}

/// How a tag came to a file.
#[derive(Debug, Clone, Copy, PartialEq, Eq, Structural)]
pub enum TagSource {
    Manual,
    Rule,
}

/// A tag write waiting to be stored.
#[derive(Debug, Clone)]
pub struct PendingTagWrite {
    pub file_id: i64,
    pub tag: String,
    pub workspace_id: u128,
    pub tag_source: TagSource,
    pub rule_id: Option<u128>,
}

/// A source rename or move waiting to be stored.
#[derive(Debug, Clone)]
pub struct PendingSourceUpdate {
    pub id: i64,
    pub name: Option<String>,
    pub path: Option<String>,
}

/// A new local source waiting to be stored: its workspace, id, name and
/// path. It is enabled and not polled.
#[derive(Debug, Clone)]
pub struct PendingSourceCreate {
    pub workspace_id: u128,
    pub id: i64,
    pub name: String,
    pub path: String,
}

/// A source deletion waiting to be stored.
#[derive(Debug, Clone)]
pub struct PendingSourceDelete {
    pub id: i64,
}

/// Progress of a directory scan; the rate is in thousandths of a file per
/// second.
#[derive(Debug, Clone)]
pub struct ScanProgress {
    pub dirs_scanned: usize,
    pub files_found: usize,
    pub files_persisted: usize,
    pub current_dir: Option<String>,
    pub elapsed_ms: u64,
    pub files_per_sec_milli: u64,
    pub stalled: bool,
}

/// Message from a background directory scan.
#[derive(Debug)]
pub enum TuiScanResult {
    /// Validation passed; the scan is starting
    Started { job_id: i64, scan_id: Option<String> },
    Progress(ScanProgress),
    /// Done; the number of files stored
    Complete { source_path: String, files_persisted: usize },
    Error(String),
}

/// Message from a background schema evaluation.
pub enum SchemaEvalResult {
    Started { job_id: i64 },
    /// Progress in percent
    Progress { progress: u8, paths_analyzed: usize, total_paths: usize },
    Complete { job_id: i64, pattern: String, paths_analyzed: usize },
    Error(String),
}

/// Message from a background sample evaluation.
pub enum SampleEvalResult {
    Complete { pattern: String, paths_analyzed: usize },
    Error(String),
}

/// A rule write waiting to be stored.
#[derive(Debug, Clone)]
pub struct PendingRuleWrite {
    pub id: u128,
    pub workspace_id: u128,
    pub pattern: String,
    pub tag: String,
}

/// An enable/disable of a rule waiting to be stored.
#[derive(Debug, Clone)]
pub struct PendingRuleUpdate {
    pub id: u128,
    pub enabled: bool,
    pub workspace_id: u128,
}

/// A rule deletion waiting to be stored.
#[derive(Debug, Clone)]
pub struct PendingRuleDelete {
    pub id: u128,
    pub workspace_id: u128,
}

// ---------------------------------------------------------------------------
// File browser entries
// ---------------------------------------------------------------------------

/// An entry of the hierarchical file browser.
#[derive(Debug, Clone)]
pub enum FsEntry {
    Folder {
        /// Display name (may carry a pattern suffix such as "data/*.csv")
        name: String,
        /// Path to navigate to; `name` when absent
        path: Option<String>,
        /// Files in or under the folder
        file_count: usize,
    },
    File {
        name: String,
        path: Option<String>,
        /// Files represented (usually 1)
        file_count: usize,
    },
    Loading {
        message: String,
    },
}

impl FsEntry {
    pub open spec fn name_spec(&self) -> Seq<char> {
        match self {
            FsEntry::Folder { name, .. } => name@,
            FsEntry::File { name, .. } => name@,
            FsEntry::Loading { message } => message@,
        }
    }

    pub open spec fn count_spec(&self) -> usize {
        match self {
            FsEntry::Folder { file_count, .. } => *file_count,
            FsEntry::File { file_count, .. } => *file_count,
            FsEntry::Loading { .. } => 0,
        }
    }

    pub fn folder(name: String, file_count: usize) -> (r: Self)
        ensures
            r == (FsEntry::Folder { name, path: None, file_count }),
    {
        FsEntry::Folder { name, path: None, file_count }
    }

    pub fn file(name: String, file_count: usize) -> (r: Self)
        ensures
            r == (FsEntry::File { name, path: None, file_count }),
    {
        FsEntry::File { name, path: None, file_count }
    }

    /// A file or folder entry without a separate navigation path.
    pub fn new(name: String, file_count: usize, is_file: bool) -> (r: Self)
        ensures
            is_file ==> r == (FsEntry::File { name, path: None, file_count }),
            !is_file ==> r == (FsEntry::Folder { name, path: None, file_count }),
    {
        FsEntry::with_path(name, None, file_count, is_file)
    }

    /// A file or folder entry with an explicit navigation path.
    pub fn with_path(name: String, path: Option<String>, file_count: usize, is_file: bool) -> (r:
        Self)
        ensures
            is_file ==> r == (FsEntry::File { name, path, file_count }),
            !is_file ==> r == (FsEntry::Folder { name, path, file_count }),
    {
        if is_file {
            FsEntry::File { name, path, file_count }
        } else {
            FsEntry::Folder { name, path, file_count }
        }
    }

    /// A placeholder shown while loading.
    pub fn loading(message: &str) -> (r: Self)
        ensures
            r matches FsEntry::Loading { message: m } && m@ == message@,
    {
        FsEntry::Loading { message: owned(message) }
    }

    /// Display name (the message of a placeholder).
    pub fn name(&self) -> (r: &str)
        ensures
            r@ == self.name_spec(),
    {
        match self {
            FsEntry::Folder { name, .. } => name.as_str(),
            FsEntry::File { name, .. } => name.as_str(),
            FsEntry::Loading { message } => message.as_str(),
        }
    }

    /// Files represented (0 for a placeholder).
    pub fn file_count(&self) -> (r: usize)
        ensures
            r == self.count_spec(),
    {
        match self {
            FsEntry::Folder { file_count, .. } => *file_count,
            FsEntry::File { file_count, .. } => *file_count,
            FsEntry::Loading { .. } => 0,
        }
    }

    /// Path to navigate to: the explicit path, else the name; none for a
    /// placeholder.
    pub fn nav_path(&self) -> (r: Option<&str>)
        ensures
            match self {
                FsEntry::Folder { name, path, .. } | FsEntry::File { name, path, .. } => r matches Some(
                    s,
                ) && s@ == (match path {
                    Some(p) => p@,
                    None => name@,
                }),
                FsEntry::Loading { .. } => r is None,
            },
    {
        match self {
            FsEntry::Folder { name, path, .. } | FsEntry::File { name, path, .. } => {
                match path {
                    Some(p) => Some(p.as_str()),
                    None => Some(name.as_str()),
                }
            },
            FsEntry::Loading { .. } => None,
        }
    }

    /// The explicit navigation path, if any.
    pub fn path(&self) -> (r: Option<&str>)
        ensures
            match self {
                FsEntry::Folder { path, .. } | FsEntry::File { path, .. } => match path {
                    Some(p) => r matches Some(s) && s@ == p@,
                    None => r is None,
                },
                FsEntry::Loading { .. } => r is None,
            },
    {
        match self {
            FsEntry::Folder { path, .. } | FsEntry::File { path, .. } => match path {
                Some(p) => Some(p.as_str()),
                None => None,
            },
            FsEntry::Loading { .. } => None,
        }
    }

    pub fn is_file(&self) -> (r: bool)
        ensures
            r == self is File,
    {
        match self {
            FsEntry::File { .. } => true,
            _ => false,
        }
    }
}

/// A sampled file in the browser preview.
#[derive(Debug, Clone)]
pub struct GlobPreviewFile {
    pub rel_path: String,
    pub size: u64,
    pub mtime: i64,
}

/// A file count, exact or estimated for large sources.
#[derive(Debug, Clone, PartialEq, Eq, Structural)]
pub enum GlobFileCount {
    Exact(usize),
    Estimated(usize),
}

impl GlobFileCount {
    /// The count, whether exact or estimated.
    pub fn value(&self) -> (r: usize)
        ensures
            r == (match self {
                GlobFileCount::Exact(n) => *n,
                GlobFileCount::Estimated(n) => *n,
            }),
    {
        match self {
            GlobFileCount::Exact(n) => *n,
            GlobFileCount::Estimated(n) => *n,
        }
    }
}

/// Phases of the file browser: browsing and filtering, then editing,
/// testing and publishing a rule.
#[derive(Debug, Clone, PartialEq)]
pub enum GlobExplorerPhase {
    Browse,
    Filtering,
    EditRule {
        focus: RuleEditorFocus,
        /// Selected row of the field list or conditions
        selected_index: usize,
        /// Field being edited inline
        editing_field: Option<FieldEditFocus>,
    },
    Testing,
    Publishing,
    Published { job_id: String },
}

} // verus!

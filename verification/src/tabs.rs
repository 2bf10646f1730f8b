//! Top-level screens, their tab strips, and the small per-screen states that
//! only keep a selection in range.
use vstd::prelude::*;
use crate::text::{str_eq, to_uppercase, unicode_upper};

verus! {

/// Current TUI mode/screen.
#[derive(Debug, Clone, Copy, PartialEq, Eq, Structural)]
pub enum TuiMode {
    Home,
    Ingest,
    Run,
    Review,
    Query,
    Settings,
}

impl TuiMode {
    pub fn default_mode() -> (r: Self)
        ensures
            r == TuiMode::Home,
    {
        TuiMode::Home
    }
}

/// Sub-tabs of the Ingest screen.
#[derive(Debug, Clone, Copy, PartialEq, Eq, Structural)]
pub enum IngestTab {
    Sources,
    Select,
    Rules,
    Validate,
}

impl IngestTab {
    /// Position of the tab in the strip, left to right.
    pub open spec fn position(self) -> int {
        match self {
            IngestTab::Sources => 0,
            IngestTab::Select => 1,
            IngestTab::Rules => 2,
            IngestTab::Validate => 3,
        }
    }

    pub open spec fn label_spec(self) -> Seq<char> {
        match self {
            IngestTab::Sources => "Sources"@,
            IngestTab::Select => "Scope"@,
            IngestTab::Rules => "Label"@,
            IngestTab::Validate => "Test"@,
        }
    }

    /// The tab to the right, wrapping around.
    pub fn next(self) -> (r: Self)
        ensures
            r.position() == (self.position() + 1) % 4,
    {
        match self {
            IngestTab::Sources => IngestTab::Select,
            IngestTab::Select => IngestTab::Rules,
            IngestTab::Rules => IngestTab::Validate,
            IngestTab::Validate => IngestTab::Sources,
        }
    }

    /// The tab to the left, wrapping around.
    pub fn prev(self) -> (r: Self)
        ensures
            r.position() == (self.position() + 3) % 4,
    {
        match self {
            IngestTab::Sources => IngestTab::Validate,
            IngestTab::Select => IngestTab::Sources,
            IngestTab::Rules => IngestTab::Select,
            IngestTab::Validate => IngestTab::Rules,
        }
    }

    pub fn label(self) -> (r: &'static str)
        ensures
            r@ == self.label_spec(),
    {
        match self {
            IngestTab::Sources => "Sources",
            IngestTab::Select => "Scope",
            IngestTab::Rules => "Label",
            IngestTab::Validate => "Test",
        }
    }
}

/// Sub-tabs of the Run screen.
#[derive(Debug, Clone, Copy, PartialEq, Eq, Structural)]
pub enum RunTab {
    Jobs,
    Outputs,
}

impl RunTab {
    pub open spec fn label_spec(self) -> Seq<char> {
        match self {
            RunTab::Jobs => "Jobs"@,
            RunTab::Outputs => "Outputs"@,
        }
    }

    /// The other tab.
    pub fn next(self) -> (r: Self)
        ensures
            r != self,
    {
        match self {
            RunTab::Jobs => RunTab::Outputs,
            RunTab::Outputs => RunTab::Jobs,
        }
    }

    /// With two tabs, moving left is moving right.
    pub fn prev(self) -> (r: Self)
        ensures
            r != self,
    {
        self.next()
    }

    pub fn label(self) -> (r: &'static str)
        ensures
            r@ == self.label_spec(),
    {
        match self {
            RunTab::Jobs => "Jobs",
            RunTab::Outputs => "Outputs",
        }
    }
}

/// Sub-tabs of the Review screen.
#[derive(Debug, Clone, Copy, PartialEq, Eq, Structural)]
pub enum ReviewTab {
    Triage,
    Approvals,
    Sessions,
}

impl ReviewTab {
    pub open spec fn position(self) -> int {
        match self {
            ReviewTab::Triage => 0,
            ReviewTab::Approvals => 1,
            ReviewTab::Sessions => 2,
        }
    }

    pub open spec fn label_spec(self) -> Seq<char> {
        match self {
            ReviewTab::Triage => "Triage"@,
            ReviewTab::Approvals => "Approvals"@,
            ReviewTab::Sessions => "Sessions"@,
        }
    }

    pub fn next(self) -> (r: Self)
        ensures
            r.position() == (self.position() + 1) % 3,
    {
        match self {
            ReviewTab::Triage => ReviewTab::Approvals,
            ReviewTab::Approvals => ReviewTab::Sessions,
            ReviewTab::Sessions => ReviewTab::Triage,
        }
    }

    pub fn prev(self) -> (r: Self)
        ensures
            r.position() == (self.position() + 2) % 3,
    {
        match self {
            ReviewTab::Triage => ReviewTab::Sessions,
            ReviewTab::Approvals => ReviewTab::Triage,
            ReviewTab::Sessions => ReviewTab::Approvals,
        }
    }

    pub fn label(self) -> (r: &'static str)
        ensures
            r@ == self.label_spec(),
    {
        match self {
            ReviewTab::Triage => "Triage",
            ReviewTab::Approvals => "Approvals",
            ReviewTab::Sessions => "Sessions",
        }
    }
}

/// Focus area for global shell navigation.
#[derive(Debug, Clone, Copy, PartialEq, Eq, Structural)]
pub enum ShellFocus {
    Main,
    Rail,
}

/// Statistics shown on home hub cards.
#[derive(Debug, Clone)]
pub struct HomeStats {
    pub file_count: usize,
    pub source_count: usize,
    pub running_jobs: usize,
    pub pending_jobs: usize,
    pub failed_jobs: usize,
    pub parser_count: usize,
    pub paused_parsers: usize,
}

/// Settings category in the Settings view.
#[derive(Debug, Clone, Copy, PartialEq, Eq, Structural)]
pub enum SettingsCategory {
    General,
    Display,
    About,
}

/// State for the Settings screen.
#[derive(Debug, Clone)]
pub struct SettingsState {
    pub category: SettingsCategory,
    pub selected_index: usize,
    pub editing: bool,
    pub edit_value: String,
    pub previous_mode: Option<TuiMode>,
    pub default_source_path: String,
    pub auto_scan_on_startup: bool,
    pub confirm_destructive: bool,
    pub theme: String,
    pub unicode_symbols: bool,
    pub show_hidden_files: bool,
}

impl SettingsState {
    /// Number of settings listed in the current category.
    pub fn category_item_count(&self) -> (r: usize)
        ensures
            r == 3,
    {
        match self.category {
            SettingsCategory::General => 3,
            SettingsCategory::Display => 3,
            SettingsCategory::About => 3,
        }
    }
}

/// Confidence level for display.
#[derive(Debug, Clone, Copy, PartialEq, Eq, Structural)]
pub enum ConfidenceLevel {
    Low,
    Medium,
    High,
}

impl ConfidenceLevel {
    pub open spec fn text(self) -> Seq<char> {
        match self {
            ConfidenceLevel::Low => "LOW"@,
            ConfidenceLevel::Medium => "MEDIUM"@,
            ConfidenceLevel::High => "HIGH"@,
        }
    }

    pub fn as_str(&self) -> (r: &'static str)
        ensures
            r@ == self.text(),
    {
        match self {
            ConfidenceLevel::Low => "LOW",
            ConfidenceLevel::Medium => "MEDIUM",
            ConfidenceLevel::High => "HIGH",
        }
    }

    /// Level named by already uppercased text: "HIGH"; "MED" or "MEDIUM";
    /// anything else is `Low`.
    pub open spec fn from_upper_spec(up: Seq<char>) -> Self {
        if up == "HIGH"@ {
            ConfidenceLevel::High
        } else if up == "MED"@ || up == "MEDIUM"@ {
            ConfidenceLevel::Medium
        } else {
            ConfidenceLevel::Low
        }
    }

    /// Level from uppercased text.
    pub fn from_uppercased(up: &str) -> (r: Self)
        ensures
            r == Self::from_upper_spec(up@),
    {
        if str_eq(up, "HIGH") {
            ConfidenceLevel::High
        } else if str_eq(up, "MED") || str_eq(up, "MEDIUM") {
            ConfidenceLevel::Medium
        } else {
            ConfidenceLevel::Low
        }
    }

    /// Reads a level case-insensitively; anything unrecognised is `Low`.
    pub fn from_str(s: &str) -> (r: Self)
        ensures
            r == Self::from_upper_spec(unicode_upper(s@)),
    {
        let up = to_uppercase(s);
        Self::from_uppercased(up.as_str())
    }
}

/// Selection clamp shared by list screens: an empty list selects 0, and an
/// index past the end moves to the last row.
pub open spec fn clamped(index: usize, len: usize) -> usize {
    if len == 0 {
        0
    } else if index >= len {
        (len - 1) as usize
    } else {
        index
    }
}

pub fn clamp_index(index: usize, len: usize) -> (r: usize)
    ensures
        r == clamped(index, len),
        len > 0 ==> r < len,
{
    if len == 0 {
        0
    } else if index >= len {
        len - 1
    } else {
        index
    }
}

/// Triage screen tabs.
#[derive(Debug, Clone, Copy, PartialEq, Eq, Structural)]
pub enum TriageTab {
    Quarantine,
    SchemaMismatch,
    DeadLetter,
}

impl TriageTab {
    pub open spec fn label_spec(self) -> Seq<char> {
        match self {
            TriageTab::Quarantine => "Quarantine"@,
            TriageTab::SchemaMismatch => "Schema Mismatch"@,
            TriageTab::DeadLetter => "Dead Letter"@,
        }
    }

    pub fn next(&self) -> (r: Self)
        ensures
            r == (match *self {
                TriageTab::Quarantine => TriageTab::SchemaMismatch,
                TriageTab::SchemaMismatch => TriageTab::DeadLetter,
                TriageTab::DeadLetter => TriageTab::Quarantine,
            }),
    {
        match self {
            TriageTab::Quarantine => TriageTab::SchemaMismatch,
            TriageTab::SchemaMismatch => TriageTab::DeadLetter,
            TriageTab::DeadLetter => TriageTab::Quarantine,
        }
    }

    pub fn label(&self) -> (r: &'static str)
        ensures
            r@ == self.label_spec(),
    {
        match self {
            TriageTab::Quarantine => "Quarantine",
            TriageTab::SchemaMismatch => "Schema Mismatch",
            TriageTab::DeadLetter => "Dead Letter",
        }
    }
}

#[derive(Debug, Clone)]
pub struct QuarantineRow {
    pub id: i64,
    pub job_id: i64,
    pub row_index: i64,
    pub error_reason: String,
    pub raw_data: Option<Vec<u8>>,
    pub created_at: String,
}

#[derive(Debug, Clone)]
pub struct SchemaMismatchRow {
    pub id: i64,
    pub job_id: i64,
    pub output_name: String,
    pub mismatch_kind: String,
    pub expected_name: Option<String>,
    pub actual_name: Option<String>,
    pub expected_type: Option<String>,
    pub actual_type: Option<String>,
    pub expected_index: Option<i64>,
    pub actual_index: Option<i64>,
    pub created_at: String,
}

#[derive(Debug, Clone)]
pub struct DeadLetterRow {
    pub id: i64,
    pub original_job_id: i64,
    pub file_id: Option<i64>,
    pub plugin_name: String,
    pub error_message: Option<String>,
    pub retry_count: i64,
    pub moved_at: String,
    pub reason: Option<String>,
}

pub open spec fn opt_len<T>(v: Option<Vec<T>>) -> nat {
    match v {
        Some(r) => r@.len(),
        None => 0,
    }
}

/// State of the Triage screen.
#[derive(Debug, Clone)]
pub struct TriageState {
    pub tab: TriageTab,
    pub quarantine_rows: Option<Vec<QuarantineRow>>,
    pub schema_mismatches: Option<Vec<SchemaMismatchRow>>,
    pub dead_letters: Option<Vec<DeadLetterRow>>,
    pub selected_index: usize,
    pub previous_mode: Option<TuiMode>,
    pub job_filter: Option<i64>,
    pub loaded: bool,
    pub copied_buffer: Option<String>,
    pub status_message: Option<String>,
}

impl TriageState {
    pub open spec fn active_len_spec(&self) -> nat {
        match self.tab {
            TriageTab::Quarantine => opt_len(self.quarantine_rows),
            TriageTab::SchemaMismatch => opt_len(self.schema_mismatches),
            TriageTab::DeadLetter => opt_len(self.dead_letters),
        }
    }

    /// Number of rows on the active tab (0 while not loaded).
    pub fn active_len(&self) -> (r: usize)
        ensures
            r == self.active_len_spec(),
    {
        match self.tab {
            TriageTab::Quarantine => match &self.quarantine_rows {
                Some(r) => r.len(),
                None => 0,
            },
            TriageTab::SchemaMismatch => match &self.schema_mismatches {
                Some(r) => r.len(),
                None => 0,
            },
            TriageTab::DeadLetter => match &self.dead_letters {
                Some(r) => r.len(),
                None => 0,
            },
        }
    }

    /// Keeps the selection on a row of the active tab.
    pub fn clamp_selection(&mut self)
        ensures
            final(self).selected_index == clamped(
                old(self).selected_index,
                old(self).active_len_spec() as usize,
            ),
            *final(self) == (TriageState { selected_index: final(self).selected_index, ..*old(self) }),
            final(self).tab == old(self).tab,
            final(self).quarantine_rows == old(self).quarantine_rows,
            final(self).schema_mismatches == old(self).schema_mismatches,
            final(self).dead_letters == old(self).dead_letters,
            final(self).job_filter == old(self).job_filter,
    {
        let len = self.active_len();
        self.selected_index = clamp_index(self.selected_index, len);
    }
}

/// Catalog screen tabs.
#[derive(Debug, Clone, Copy, PartialEq, Eq, Structural)]
pub enum CatalogTab {
    Pipelines,
    Runs,
}

impl CatalogTab {
    pub fn next(&self) -> (r: Self)
        ensures
            r != *self,
    {
        match self {
            CatalogTab::Pipelines => CatalogTab::Runs,
            CatalogTab::Runs => CatalogTab::Pipelines,
        }
    }

    pub fn label(&self) -> (r: &'static str)
        ensures
            r@ == (match *self {
                CatalogTab::Pipelines => "Pipelines"@,
                CatalogTab::Runs => "Runs"@,
            }),
    {
        match self {
            CatalogTab::Pipelines => "Pipelines",
            CatalogTab::Runs => "Runs",
        }
    }
}

#[derive(Debug, Clone, Copy, PartialEq, Eq, Structural)]
pub enum WorkspaceSwitcherMode {
    List,
    Creating,
}

#[derive(Debug, Clone)]
pub struct PipelineInfo {
    pub id: String,
    pub name: String,
    pub version: i64,
    pub created_at: String,
}

#[derive(Debug, Clone)]
pub struct PipelineRunInfo {
    pub id: String,
    pub pipeline_id: String,
    pub pipeline_name: Option<String>,
    pub pipeline_version: Option<i64>,
    pub logical_date: String,
    pub status: String,
    pub selection_snapshot_hash: Option<String>,
    pub started_at: Option<String>,
    pub completed_at: Option<String>,
}

/// State of the outputs catalog (pipelines and their runs).
#[derive(Debug, Clone)]
pub struct CatalogState {
    pub tab: CatalogTab,
    pub pipelines: Option<Vec<PipelineInfo>>,
    pub runs: Option<Vec<PipelineRunInfo>>,
    pub selected_index: usize,
    pub previous_mode: Option<TuiMode>,
    pub pending_select_run_id: Option<String>,
    pub loaded: bool,
    pub status_message: Option<String>,
}

impl CatalogState {
    pub open spec fn active_len_spec(&self) -> nat {
        match self.tab {
            CatalogTab::Pipelines => opt_len(self.pipelines),
            CatalogTab::Runs => opt_len(self.runs),
        }
    }

    pub fn active_len(&self) -> (r: usize)
        ensures
            r == self.active_len_spec(),
    {
        match self.tab {
            CatalogTab::Pipelines => match &self.pipelines {
                Some(r) => r.len(),
                None => 0,
            },
            CatalogTab::Runs => match &self.runs {
                Some(r) => r.len(),
                None => 0,
            },
        }
    }

    pub fn clamp_selection(&mut self)
        ensures
            final(self).selected_index == clamped(
                old(self).selected_index,
                old(self).active_len_spec() as usize,
            ),
            *final(self) == (CatalogState { selected_index: final(self).selected_index, ..*old(self) }),
            final(self).tab == old(self).tab,
            final(self).pipelines == old(self).pipelines,
            final(self).runs == old(self).runs,
    {
        let len = self.active_len();
        self.selected_index = clamp_index(self.selected_index, len);
    }
}

/// View state and remembered state after moving from `view` to `new`.
pub open spec fn after_transition<S>(view: S, new: S) -> (S, Option<S>) {
    (new, Some(view))
}

/// View state and remembered state after going back: to the remembered
/// state if there is one, else to `home`; nothing stays remembered.
pub open spec fn after_return<S>(view: S, remembered: Option<S>, home: S) -> (S, Option<S>) {
    match remembered {
        Some(p) => (p, None),
        None => (home, None),
    }
}

/// Going back right after a transition returns to the view state left.
pub proof fn law_return_undoes_transition<S>(view: S, new: S, home: S)
    ensures
        after_return(after_transition(view, new).0, after_transition(view, new).1, home) == (
            view,
            None::<S>,
        ),
{
}

/// Moving one Ingest tab right and then one left returns to the tab, and
/// four moves right go round the strip.
pub proof fn law_ingest_tabs_cycle(t: IngestTab, n: IngestTab, p: IngestTab)
    requires
        n.position() == (t.position() + 1) % 4,
        p.position() == (n.position() + 3) % 4,
    ensures
        p == t,
{
}

/// Moving one Review tab right and then one left returns to the tab.
pub proof fn law_review_tabs_cycle(t: ReviewTab, n: ReviewTab, p: ReviewTab)
    requires
        n.position() == (t.position() + 1) % 3,
        p.position() == (n.position() + 2) % 3,
    ensures
        p == t,
{
}

/// With two Run tabs, moving twice returns to the tab.
pub proof fn law_run_tabs_cycle(t: RunTab, n: RunTab, p: RunTab)
    requires
        n != t,
        p != n,
    ensures
        p == t,
{
}

} // verus!

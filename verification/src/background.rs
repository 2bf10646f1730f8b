//! What the screens do with the results of background work: loaded lists,
//! pages of files, finished scans, tag and rule writes, query results, and
//! when to ask for the jobs list again. The work itself, and the channels
//! it reports on, belong to the application.
use vstd::prelude::*;
use crate::approvals::{ApprovalInfo, ApprovalsState};
use crate::discover::{DiscoverViewState, SourceInfo};
use crate::discover::{RuleId, RuleInfo, ScanProgress, TagInfo};
use crate::query::{query_history_with, QueryResults, QueryState, QueryViewState};
use crate::discover_state::{repaired_selection, selected_index, source_ids, DiscoverState, FileInfo};
use crate::text_order::{insert_distinct, sort_strings, sorted_strings, strictly_sorted};
use crate::text::strings_view;
use crate::jobs::{JobInfo, JobStatus};
use crate::sessions::{SessionInfo, SessionsState};
use crate::tabs::{clamped, CatalogState, CatalogTab, DeadLetterRow, PipelineInfo, PipelineRunInfo, QuarantineRow, SchemaMismatchRow, TriageState, TuiMode};
use crate::text::{concat2, concat3, decimal, decimal_int, i64_to_decimal, owned, push_str, str_eq, trim_seq, u64_to_decimal};

verus! {

// ---------------------------------------------------------------------------
// Sources
// ---------------------------------------------------------------------------

/// `i` is the first position of a source with this path.
pub open spec fn first_with_path(sources: Seq<SourceInfo>, path: Seq<char>, i: int) -> bool {
    &&& 0 <= i < sources.len()
    &&& sources[i].path@ == path
    &&& forall|k: int| 0 <= k < i ==> sources[k].path@ != path
}

pub open spec fn has_path(sources: Seq<SourceInfo>, path: Seq<char>) -> bool {
    exists|i: int| 0 <= i < sources.len() && sources[i].path@ == path
}

proof fn lemma_first_with_path_unique(sources: Seq<SourceInfo>, path: Seq<char>, i: int, j: int)
    requires
        first_with_path(sources, path, i),
        first_with_path(sources, path, j),
    ensures
        i == j,
{
}

fn find_path(sources: &Vec<SourceInfo>, path: &str) -> (r: Option<usize>)
    ensures
        match r {
            Some(i) => first_with_path(sources@, path@, i as int),
            None => !has_path(sources@, path@),
        },
{
    let mut i: usize = 0;
    while i < sources.len()
        invariant
            i <= sources@.len(),
            forall|k: int| 0 <= k < i ==> sources@[k].path@ != path@,
        decreases sources@.len() - i,
    {
        if str_eq(sources[i].path.as_str(), path) {
            return Some(i);
        }
        i += 1;
    }
    None
}

/// Position of the first source with this path.
pub open spec fn path_index(sources: Seq<SourceInfo>, path: Seq<char>) -> int {
    choose|i: int| first_with_path(sources, path, i)
}

/// The message shown when a scanned source is missing from the reloaded list.
pub open spec fn missing_source_message() -> Seq<char> {
    "Scan completed but source was not found"@
}

impl DiscoverState {
    /// The same state but for the source list and selection, the loading
    /// flags, the status message and the dropdown fields.
    pub open spec fn same_but_source_fields(&self, other: &DiscoverState) -> bool {
        *self == (DiscoverState {
            sources: self.sources,
            sources_loaded: self.sources_loaded,
            selected_source_id: self.selected_source_id,
            pending_select_source_path: self.pending_select_source_path,
            data_loaded: self.data_loaded,
            status_message: self.status_message,
            view_state: self.view_state,
            previous_view_state: self.previous_view_state,
            sources_filter: self.sources_filter,
            sources_filtering: self.sources_filtering,
            preview_source: self.preview_source,
            ..*other
        })
    }

    /// Stores a loaded source list. The list is marked loaded and the
    /// selection repaired. A source awaiting selection by path is then
    /// selected and its files marked for reloading; when no source has that
    /// path, an error message says so. Then, on the discover screen with
    /// nothing selected in the files or rule builder view, the sources
    /// dropdown opens, unfiltered, previewing the selected position.
    pub fn apply_loaded_sources(&mut self, sources: Vec<SourceInfo>, on_discover_screen: bool)
        ensures
            final(self).same_but_source_fields(old(self)),
            final(self).sources@ == sources@,
            final(self).sources_loaded,
            final(self).pending_select_source_path is None,
            match old(self).pending_select_source_path {
                Some(p) => if has_path(sources@, p@) {
                    &&& final(self).selected_source_id == Some(
                        sources@[path_index(sources@, p@)].id,
                    )
                    &&& !final(self).data_loaded
                    &&& final(self).status_message == old(self).status_message
                } else {
                    &&& final(self).selected_source_id == repaired_selection(
                        source_ids(sources@),
                        old(self).selected_source_id,
                    )
                    &&& final(self).data_loaded == old(self).data_loaded
                    &&& final(self).status_message matches Some((m, true))
                    &&& m@ == missing_source_message()
                },
                None => {
                    &&& final(self).selected_source_id == repaired_selection(
                        source_ids(sources@),
                        old(self).selected_source_id,
                    )
                    &&& final(self).data_loaded == old(self).data_loaded
                    &&& final(self).status_message == old(self).status_message
                },
            },
            ({
                let opens = on_discover_screen && final(self).selected_source_id is None && (
                old(self).view_state == DiscoverViewState::RuleBuilder || old(self).view_state
                    == DiscoverViewState::Files);
                if opens {
                    &&& final(self).view_state == DiscoverViewState::SourcesDropdown
                    &&& final(self).previous_view_state == Some(old(self).view_state)
                    &&& final(self).sources_filter@ == Seq::<char>::empty()
                    &&& !final(self).sources_filtering
                    &&& final(self).preview_source == Some(
                        selected_index(source_ids(sources@), final(self).selected_source_id) as usize,
                    )
                } else {
                    &&& final(self).view_state == old(self).view_state
                    &&& final(self).previous_view_state == old(self).previous_view_state
                    &&& final(self).sources_filter == old(self).sources_filter
                    &&& final(self).sources_filtering == old(self).sources_filtering
                    &&& final(self).preview_source == old(self).preview_source
                }
            }),
    {
        self.sources = sources;
        self.sources_loaded = true;
        self.validate_source_selection();
        let pending = self.pending_select_source_path.take();
        if let Some(path) = pending {
            match find_path(&self.sources, path.as_str()) {
                Some(i) => {
                    proof {
                        let c = choose|k: int| first_with_path(self.sources@, path@, k);
                        lemma_first_with_path_unique(self.sources@, path@, i as int, c);
                    }
                    self.selected_source_id = Some(self.sources[i].id);
                    self.data_loaded = false;
                },
                None => {
                    self.status_message = Some(
                        (owned("Scan completed but source was not found"), true),
                    );
                },
            }
        }
        if on_discover_screen && self.selected_source_id.is_none() && (self.view_state
            == DiscoverViewState::RuleBuilder || self.view_state == DiscoverViewState::Files) {
            self.previous_view_state = Some(self.view_state);
            self.view_state = DiscoverViewState::SourcesDropdown;
            self.sources_filter = String::new();
            self.sources_filtering = false;
            self.preview_source = Some(self.selected_source_index());
        }
    }

    /// A source load that failed or was abandoned: the list counts as
    /// loaded and no source waits for selection any more.
    pub fn finish_sources_load_without_list(&mut self)
        ensures
            *final(self) == (DiscoverState {
                sources_loaded: true,
                pending_select_source_path: None,
                ..*old(self)
            }),
    {
        self.sources_loaded = true;
        self.pending_select_source_path = None;
    }
}

// ---------------------------------------------------------------------------
// Review and Run lists
// ---------------------------------------------------------------------------

/// `i` is the first session with this id.
pub open spec fn first_session(sessions: Seq<SessionInfo>, id: Seq<char>, i: int) -> bool {
    &&& 0 <= i < sessions.len()
    &&& sessions[i].id@ == id
    &&& forall|k: int| 0 <= k < i ==> sessions[k].id@ != id
}

pub open spec fn has_session(sessions: Seq<SessionInfo>, id: Seq<char>) -> bool {
    exists|i: int| 0 <= i < sessions.len() && sessions[i].id@ == id
}

fn find_session(sessions: &Vec<SessionInfo>, id: &str) -> (r: Option<usize>)
    ensures
        match r {
            Some(i) => first_session(sessions@, id@, i as int),
            None => !has_session(sessions@, id@),
        },
{
    let mut i: usize = 0;
    while i < sessions.len()
        invariant
            i <= sessions@.len(),
            forall|k: int| 0 <= k < i ==> sessions@[k].id@ != id@,
        decreases sessions@.len() - i,
    {
        if str_eq(sessions[i].id.as_str(), id) {
            return Some(i);
        }
        i += 1;
    }
    None
}

impl SessionsState {
    /// Stores a loaded session list. A session awaiting selection is
    /// selected when listed; the selection is then kept in range.
    pub fn apply_loaded_sessions(&mut self, sessions: Vec<SessionInfo>)
        ensures
            final(self).sessions@ == sessions@,
            final(self).sessions_loaded,
            final(self).pending_select_session_id is None,
            ({
                let wanted = match old(self).pending_select_session_id {
                    Some(id) => if has_session(sessions@, id@) {
                        choose|i: int| first_session(sessions@, id@, i)
                    } else {
                        old(self).selected_index as int
                    },
                    None => old(self).selected_index as int,
                };
                final(self).selected_index == clamped(wanted as usize, sessions@.len() as usize)
            }),
            final(self).view_state == old(self).view_state,
            final(self).previous_view_state == old(self).previous_view_state,
            final(self).previous_mode == old(self).previous_mode,
            final(self).active_session == old(self).active_session,
            final(self).current_proposal == old(self).current_proposal,
            final(self).pending_gate == old(self).pending_gate,
    {
        self.sessions = sessions;
        self.sessions_loaded = true;
        let pending = self.pending_select_session_id.take();
        if let Some(id) = pending {
            if let Some(pos) = find_session(&self.sessions, id.as_str()) {
                proof {
                    let c = choose|i: int| first_session(self.sessions@, id@, i);
                    assert(first_session(self.sessions@, id@, c));
                    assert(c == pos);
                }
                self.selected_index = pos;
            }
        }
        self.clamp_selection();
    }
}

impl ApprovalsState {
    /// Stores a loaded approval list and keeps the selection on a row of the
    /// filtered list.
    pub fn apply_loaded_approvals(&mut self, approvals: Vec<ApprovalInfo>)
        ensures
            final(self).approvals@ == approvals@,
            final(self).approvals_loaded,
            final(self).selected_index == clamped(
                old(self).selected_index,
                final(self).filtered_spec().len() as usize,
            ),
            final(self).filter == old(self).filter,
            final(self).view_state == old(self).view_state,
            final(self).pinned_approval_id == old(self).pinned_approval_id,
            final(self).confirm_action == old(self).confirm_action,
            final(self).rejection_reason == old(self).rejection_reason,
            final(self).previous_mode == old(self).previous_mode,
    {
        self.approvals = approvals;
        self.approvals_loaded = true;
        self.clamp_selection();
    }
}

impl TriageState {
    /// Stores the loaded triage lists and keeps the selection on a row of
    /// the active tab.
    pub fn apply_loaded(
        &mut self,
        quarantine_rows: Option<Vec<QuarantineRow>>,
        schema_mismatches: Option<Vec<SchemaMismatchRow>>,
        dead_letters: Option<Vec<DeadLetterRow>>,
    )
        ensures
            final(self).quarantine_rows == quarantine_rows,
            final(self).schema_mismatches == schema_mismatches,
            final(self).dead_letters == dead_letters,
            final(self).loaded,
            final(self).selected_index == clamped(
                old(self).selected_index,
                final(self).active_len_spec() as usize,
            ),
            final(self).tab == old(self).tab,
            final(self).job_filter == old(self).job_filter,
            final(self).previous_mode == old(self).previous_mode,
            final(self).copied_buffer == old(self).copied_buffer,
            final(self).status_message == old(self).status_message,
    {
        self.quarantine_rows = quarantine_rows;
        self.schema_mismatches = schema_mismatches;
        self.dead_letters = dead_letters;
        self.loaded = true;
        self.clamp_selection();
    }

    /// A triage load that failed: the lists count as loaded and the error
    /// is shown.
    pub fn apply_load_error(&mut self, err: String)
        ensures
            *final(self) == (TriageState { loaded: true, status_message: Some(err), ..*old(self) }),
    {
        self.loaded = true;
        self.status_message = Some(err);
    }
}

/// `i` is the first run with this id.
pub open spec fn first_run(runs: Seq<PipelineRunInfo>, id: Seq<char>, i: int) -> bool {
    &&& 0 <= i < runs.len()
    &&& runs[i].id@ == id
    &&& forall|k: int| 0 <= k < i ==> runs[k].id@ != id
}

pub open spec fn has_run(runs: Seq<PipelineRunInfo>, id: Seq<char>) -> bool {
    exists|i: int| 0 <= i < runs.len() && runs[i].id@ == id
}

fn find_run(runs: &Vec<PipelineRunInfo>, id: &str) -> (r: Option<usize>)
    ensures
        match r {
            Some(i) => first_run(runs@, id@, i as int),
            None => !has_run(runs@, id@),
        },
{
    let mut i: usize = 0;
    while i < runs.len()
        invariant
            i <= runs@.len(),
            forall|k: int| 0 <= k < i ==> runs@[k].id@ != id@,
        decreases runs@.len() - i,
    {
        if str_eq(runs[i].id.as_str(), id) {
            return Some(i);
        }
        i += 1;
    }
    None
}

impl CatalogState {
    /// Stores the loaded pipelines and runs. A run awaiting selection is
    /// shown on the runs tab when listed; the selection is then kept on a
    /// row of the active tab.
    pub fn apply_loaded(&mut self, pipelines: Option<Vec<PipelineInfo>>, runs: Option<Vec<PipelineRunInfo>>)
        ensures
            final(self).pipelines == pipelines,
            final(self).runs == runs,
            final(self).loaded,
            final(self).pending_select_run_id is None,
            ({
                let found = match (old(self).pending_select_run_id, runs) {
                    (Some(id), Some(rs)) => has_run(rs@, id@),
                    _ => false,
                };
                if found {
                    let id = old(self).pending_select_run_id->0;
                    let rs = runs->0;
                    &&& final(self).tab == CatalogTab::Runs
                    &&& final(self).selected_index == clamped(
                        (choose|i: int| first_run(rs@, id@, i)) as usize,
                        rs@.len() as usize,
                    )
                } else {
                    &&& final(self).tab == old(self).tab
                    &&& final(self).selected_index == clamped(
                        old(self).selected_index,
                        final(self).active_len_spec() as usize,
                    )
                }
            }),
            final(self).previous_mode == old(self).previous_mode,
            final(self).status_message == old(self).status_message,
    {
        self.pipelines = pipelines;
        self.runs = runs;
        let pending = self.pending_select_run_id.take();
        if let Some(run_id) = pending {
            if let Some(rs) = &self.runs {
                if let Some(pos) = find_run(rs, run_id.as_str()) {
                    proof {
                        let c = choose|i: int| first_run(rs@, run_id@, i);
                        assert(first_run(rs@, run_id@, c));
                        assert(c == pos);
                    }
                    self.tab = CatalogTab::Runs;
                    self.selected_index = pos;
                }
            }
        }
        self.loaded = true;
        self.clamp_selection();
    }

    /// A catalog load that failed: it counts as loaded and the error is
    /// shown.
    pub fn apply_load_error(&mut self, err: String)
        ensures
            *final(self) == (CatalogState { loaded: true, status_message: Some(err), ..*old(self) }),
    {
        self.loaded = true;
        self.status_message = Some(err);
    }
}

// ---------------------------------------------------------------------------
// Polling the jobs list
// ---------------------------------------------------------------------------

/// Milliseconds between reloads of the jobs list on the Run and Home
/// screens.
pub const JOBS_POLL_INTERVAL_MS: u64 = 2000;

/// Milliseconds between reloads elsewhere while jobs are active.
pub const JOBS_POLL_INTERVAL_IDLE_MS: u64 = 10000;

/// Some job is pending or running.
pub open spec fn any_active(jobs: Seq<JobInfo>) -> bool {
    exists|i: int|
        0 <= i < jobs.len() && (jobs[i].status == JobStatus::Pending || jobs[i].status
            == JobStatus::Running)
}

pub fn has_active_jobs(jobs: &Vec<JobInfo>) -> (r: bool)
    ensures
        r == any_active(jobs@),
{
    let mut i: usize = 0;
    while i < jobs.len()
        invariant
            i <= jobs@.len(),
            forall|k: int|
                0 <= k < i ==> !(jobs@[k].status == JobStatus::Pending || jobs@[k].status
                    == JobStatus::Running),
        decreases jobs@.len() - i,
    {
        match jobs[i].status {
            JobStatus::Pending | JobStatus::Running => return true,
            _ => {},
        }
        i += 1;
    }
    false
}

pub open spec fn poll_interval_spec(mode: TuiMode, active: bool) -> u64 {
    if mode == TuiMode::Run || mode == TuiMode::Home {
        JOBS_POLL_INTERVAL_MS
    } else if active {
        JOBS_POLL_INTERVAL_IDLE_MS
    } else {
        0
    }
}

/// How often to reload the jobs list: often on the Run and Home screens,
/// seldom elsewhere while jobs are active, else never (0).
pub fn jobs_poll_interval_ms(mode: TuiMode, active_jobs: bool) -> (r: u64)
    ensures
        r == poll_interval_spec(mode, active_jobs),
{
    if mode == TuiMode::Run || mode == TuiMode::Home {
        JOBS_POLL_INTERVAL_MS
    } else if active_jobs {
        JOBS_POLL_INTERVAL_IDLE_MS
    } else {
        0
    }
}

pub open spec fn should_load_jobs_spec(loaded: bool, interval: u64, since_last_poll_ms: Option<u64>) -> bool {
    if !loaded {
        true
    } else if interval > 0 {
        match since_last_poll_ms {
            Some(ms) => ms >= interval,
            None => true,
        }
    } else {
        false
    }
}

/// Whether to load the jobs list now: always before the first load; then
/// once the interval has passed since the last poll (or there was none),
/// unless the interval is 0.
pub fn should_load_jobs(loaded: bool, interval: u64, since_last_poll_ms: Option<u64>) -> (r: bool)
    ensures
        r == should_load_jobs_spec(loaded, interval, since_last_poll_ms),
{
    if !loaded {
        true
    } else if interval > 0 {
        match since_last_poll_ms {
            Some(ms) => ms >= interval,
            None => true,
        }
    } else {
        false
    }
}

// ---------------------------------------------------------------------------
// Pages of files and tags
// ---------------------------------------------------------------------------

/// The tags of the files before `i`, and of file `i` before its tag `k`.
pub open spec fn tags_upto(files: Seq<FileInfo>, i: int, k: int) -> Set<Seq<char>> {
    Set::new(
        |t: Seq<char>|
            exists|a: int, b: int|
                0 <= a <= i && 0 <= a < files.len() && 0 <= b < files[a].tags@.len() && (a < i
                    || b < k) && #[trigger] files[a].tags@[b]@ == t,
    )
}

/// Every tag of the files.
pub open spec fn file_tags(files: Seq<FileInfo>) -> Set<Seq<char>> {
    Set::new(
        |t: Seq<char>|
            exists|a: int, b: int|
                0 <= a < files.len() && 0 <= b < files[a].tags@.len() && #[trigger] files[a].tags@[b]@
                    == t,
    )
}

/// The distinct tags of the files, sorted.
pub fn distinct_sorted_tags(files: &Vec<FileInfo>) -> (r: Vec<String>)
    ensures
        strictly_sorted(strings_view(r@)),
        strings_view(r@).to_set() == file_tags(files@),
{
    let mut out: Vec<String> = Vec::new();
    let mut i: usize = 0;
    proof {
        assert(strings_view(out@).to_set() =~= tags_upto(files@, 0, 0));
    }
    while i < files.len()
        invariant
            i <= files@.len(),
            strictly_sorted(strings_view(out@)),
            strings_view(out@).to_set() == tags_upto(files@, i as int, 0),
        decreases files@.len() - i,
    {
        let tags = &files[i].tags;
        let mut k: usize = 0;
        proof {
            assert(tags_upto(files@, i as int, 0) =~= tags_upto(files@, i as int, k as int));
        }
        while k < tags.len()
            invariant
                i < files@.len(),
                tags@ == files@[i as int].tags@,
                k <= tags@.len(),
                strictly_sorted(strings_view(out@)),
                strings_view(out@).to_set() == tags_upto(files@, i as int, k as int),
            decreases tags@.len() - k,
        {
            insert_distinct(&mut out, tags[k].as_str());
            proof {
                assert(tags_upto(files@, i as int, k as int).insert(tags@[k as int]@) =~= tags_upto(
                    files@,
                    i as int,
                    k + 1,
                )) by {
                    let t = tags@[k as int]@;
                    assert(files@[i as int].tags@[k as int]@ == t);
                }
            }
            k += 1;
        }
        proof {
            assert(tags_upto(files@, i as int, k as int) =~= tags_upto(files@, i + 1, 0)) by {
                assert forall|t: Seq<char>| #[trigger] tags_upto(files@, i + 1, 0).contains(t) implies tags_upto(
                    files@,
                    i as int,
                    k as int,
                ).contains(t) by {
                    let (a, b) = choose|a: int, b: int|
                        0 <= a <= i + 1 && 0 <= a < files@.len() && 0 <= b
                            < files@[a].tags@.len() && (a < i + 1 || b < 0) && #[trigger] files@[a].tags@[b]@
                            == t;
                    assert(files@[a].tags@[b]@ == t);
                }
            }
        }
        i += 1;
    }
    proof {
        assert(tags_upto(files@, i as int, 0) =~= file_tags(files@)) by {
            assert forall|t: Seq<char>| #[trigger] file_tags(files@).contains(t) implies tags_upto(
                files@,
                i as int,
                0,
            ).contains(t) by {
                let (a, b) = choose|a: int, b: int|
                    0 <= a < files@.len() && 0 <= b < files@[a].tags@.len() && #[trigger] files@[a].tags@[b]@
                        == t;
                assert(files@[a].tags@[b]@ == t);
            }
        }
    }
    out
}

/// What became of a page of files.
#[derive(Debug, Clone, Copy, PartialEq, Eq, Structural)]
pub enum FilesPageOutcome {
    /// For another workspace, source or page: ignored
    Stale,
    /// The page lies past the end: the offset moved to the last page, to be
    /// loaded again
    Repositioned,
    /// Stored
    Applied,
}

/// Offset of the last page of `total` files, pages `page_size` long (at
/// least one).
pub open spec fn last_page_offset(total: nat, page_size: nat) -> nat {
    let size = if page_size >= 1 {
        page_size
    } else {
        1
    };
    if total == 0 {
        0
    } else {
        ((total - 1) / (size as int) * (size as int)) as nat
    }
}

impl DiscoverState {
    /// Takes a page of files loaded for a workspace, source and offset.
    /// A page for another workspace, another source or another offset than
    /// the current ones changes nothing. A page whose offset lies past the
    /// last page moves the offset there and marks the files for reloading.
    /// Otherwise the files are stored with their distinct tags, sorted, and
    /// the first row is selected.
    pub fn apply_files_page(
        &mut self,
        same_workspace: bool,
        source_id: i64,
        page_offset: usize,
        total_count: usize,
        files: Vec<FileInfo>,
    ) -> (r: FilesPageOutcome)
        ensures
            !same_workspace || old(self).selected_source_id != Some(source_id) || page_offset
                != old(self).page_offset ==> r == FilesPageOutcome::Stale && *final(self)
                == *old(self),
            same_workspace && old(self).selected_source_id == Some(source_id) && page_offset
                == old(self).page_offset && old(self).page_offset > last_page_offset(
                total_count as nat,
                old(self).page_size as nat,
            ) ==> r == FilesPageOutcome::Repositioned && *final(self) == (DiscoverState {
                page_offset: last_page_offset(total_count as nat, old(self).page_size as nat) as usize,
                data_loaded: false,
                ..*old(self)
            }),
            r == FilesPageOutcome::Applied ==> same_workspace && old(self).selected_source_id == Some(
                source_id,
            ) && page_offset == old(self).page_offset && old(self).page_offset <= last_page_offset(
                total_count as nat,
                old(self).page_size as nat,
            ),
            same_workspace && old(self).selected_source_id == Some(source_id) && page_offset
                == old(self).page_offset && old(self).page_offset <= last_page_offset(
                total_count as nat,
                old(self).page_size as nat,
            ) ==> r == FilesPageOutcome::Applied && final(self).files@ == files@
                && strictly_sorted(strings_view(final(self).available_tags@)) && strings_view(
                final(self).available_tags@,
            ).to_set() == file_tags(files@) && *final(self) == (DiscoverState {
                files: final(self).files,
                available_tags: final(self).available_tags,
                selected: 0,
                total_files: total_count,
                data_loaded: true,
                db_filtered: true,
                scan_error: None,
                ..*old(self)
            }),
    {
        if !same_workspace || self.selected_source_id != Some(source_id) || page_offset
            != self.page_offset {
            return FilesPageOutcome::Stale;
        }
        let page_size: usize = if self.page_size >= 1 {
            self.page_size
        } else {
            1
        };
        let max_offset: usize = if total_count == 0 {
            0
        } else {
            let pages = (total_count - 1) / page_size;
            proof {
                assert((pages as int) * (page_size as int) <= total_count as int - 1) by (nonlinear_arith)
                    requires
                        pages as int == (total_count as int - 1) / (page_size as int),
                        page_size >= 1,
                ;
            }
            pages * page_size
        };
        if self.page_offset > max_offset {
            self.page_offset = max_offset;
            self.data_loaded = false;
            return FilesPageOutcome::Repositioned;
        }
        let tags = distinct_sorted_tags(&files);
        self.files = files;
        self.available_tags = tags;
        self.selected = 0;
        self.total_files = total_count;
        self.data_loaded = true;
        self.db_filtered = true;
        self.scan_error = None;
        FilesPageOutcome::Applied
    }

    /// Takes the tags loaded for a workspace and source; for another
    /// workspace or source nothing changes (`false`). A selected tag past
    /// the new list is cleared.
    pub fn apply_loaded_tags(
        &mut self,
        same_workspace: bool,
        source_id: i64,
        tags: Vec<TagInfo>,
        available_tags: Vec<String>,
    ) -> (r: bool)
        ensures
            r == (same_workspace && old(self).selected_source_id == Some(source_id)),
            !r ==> *final(self) == *old(self),
            r ==> final(self).tags@ == tags@ && final(self).available_tags@ == available_tags@
                && final(self).selected_tag == (match old(self).selected_tag {
                Some(t) => if t >= tags@.len() {
                    None
                } else {
                    Some(t)
                },
                None => None,
            }) && *final(self) == (DiscoverState {
                tags: final(self).tags,
                available_tags: final(self).available_tags,
                selected_tag: final(self).selected_tag,
                ..*old(self)
            }),
    {
        if !same_workspace || self.selected_source_id != Some(source_id) {
            return false;
        }
        self.tags = tags;
        self.available_tags = available_tags;
        if let Some(t) = self.selected_tag {
            if t >= self.tags.len() {
                self.selected_tag = None;
            }
        }
        true
    }
}

// ---------------------------------------------------------------------------
// Rule and tag writes
// ---------------------------------------------------------------------------

/// "Created rule: {pattern} → {tag} ({count} files tagged)"
pub open spec fn rule_created_message(pattern: Seq<char>, tag: Seq<char>, count: nat) -> Seq<char> {
    "Created rule: "@ + pattern + " \u{2192} "@ + tag + " ("@ + decimal(count) + " files tagged)"@
}

/// "Tagged {count} files with '{tag}'"
pub open spec fn tagged_message(count: nat, tag: Seq<char>) -> Seq<char> {
    "Tagged "@ + decimal(count) + " files with '"@ + tag + "'"@
}

pub open spec fn has_rule(rules: Seq<RuleInfo>, id: RuleId) -> bool {
    exists|i: int| 0 <= i < rules.len() && rules[i].id == id
}

/// The file's tags after tagging the files at `paths` with `tag`: added at
/// the end when the file is one of them and lacks it.
pub open spec fn tagged_file(f: FileInfo, paths: Seq<Seq<char>>, tag: Seq<char>) -> Seq<Seq<char>> {
    if paths.contains(f.rel_path@) && !strings_view(f.tags@).contains(tag) {
        strings_view(f.tags@).push(tag)
    } else {
        strings_view(f.tags@)
    }
}

fn contains_string(v: &Vec<String>, t: &str) -> (r: bool)
    ensures
        r == strings_view(v@).contains(t@),
{
    let mut i: usize = 0;
    while i < v.len()
        invariant
            i <= v@.len(),
            forall|k: int| 0 <= k < i ==> v@[k]@ != t@,
        decreases v@.len() - i,
    {
        if str_eq(v[i].as_str(), t) {
            proof {
                assert(strings_view(v@)[i as int] == t@);
            }
            return true;
        }
        i += 1;
    }
    proof {
        if strings_view(v@).contains(t@) {
            let k = choose|k: int| 0 <= k < strings_view(v@).len() && strings_view(v@)[k] == t@;
            assert(v@[k]@ == t@);
        }
    }
    false
}

impl DiscoverState {
    /// A rule was stored and applied: it joins the rules list unless a rule
    /// with its id is there (the selection stays in range), and the status
    /// says how many files it tagged.
    pub fn apply_rule_created(&mut self, rule_id: u128, pattern: String, tag: String, tagged_count: usize)
        ensures
            has_rule(old(self).rules@, RuleId(Some(rule_id))) ==> final(self).rules@ == old(
                self,
            ).rules@ && final(self).selected_rule == old(self).selected_rule,
            !has_rule(old(self).rules@, RuleId(Some(rule_id))) ==> final(self).rules@.len()
                == old(self).rules@.len() + 1 && final(self).rules@.drop_last() == old(self).rules@
                && final(self).rules@.last().id == RuleId(Some(rule_id))
                && final(self).rules@.last().pattern == pattern && final(self).rules@.last().tag
                == tag && final(self).rules@.last().priority == 100
                && final(self).rules@.last().enabled && final(self).selected_rule == (if old(
                self,
            ).selected_rule >= final(self).rules@.len() {
                (final(self).rules@.len() - 1) as usize
            } else {
                old(self).selected_rule
            }),
            final(self).status_message matches Some((m, false)) && m@ == rule_created_message(
                pattern@,
                tag@,
                tagged_count as nat,
            ),
            *final(self) == (DiscoverState {
                rules: final(self).rules,
                selected_rule: final(self).selected_rule,
                status_message: final(self).status_message,
                ..*old(self)
            }),
    {
        let id = RuleId::new(rule_id);
        let mut known = false;
        let mut i: usize = 0;
        while i < self.rules.len()
            invariant
                i <= self.rules@.len(),
                self.rules@ == old(self).rules@,
                known == (exists|k: int| 0 <= k < i && self.rules@[k].id == id),
                id == RuleId(Some(rule_id)),
            decreases self.rules@.len() - i,
        {
            if self.rules[i].id == id {
                known = true;
            }
            i += 1;
        }
        let mut msg = owned("Created rule: ");
        push_str(&mut msg, pattern.as_str());
        push_str(&mut msg, " \u{2192} ");
        push_str(&mut msg, tag.as_str());
        push_str(&mut msg, " (");
        let n = u64_to_decimal(tagged_count as u64);
        push_str(&mut msg, n.as_str());
        push_str(&mut msg, " files tagged)");
        if !known {
            let ghost before = self.rules@;
            self.rules.push(RuleInfo { id, pattern, tag, priority: 100, enabled: true });
            proof {
                assert(self.rules@.drop_last() =~= before);
            }
            if self.selected_rule >= self.rules.len() {
                self.selected_rule = self.rules.len() - 1;
            }
        }
        self.status_message = Some((msg, false));
    }

    /// Files were tagged: each listed file of the page that lacks the tag
    /// gets it at the end; a tag new to the page's tags joins them and the
    /// list is sorted; the status says how many files were tagged.
    pub fn apply_tags_added(&mut self, paths: &Vec<String>, tag: String, tagged_count: usize)
        ensures
            final(self).files@.len() == old(self).files@.len(),
            forall|i: int|
                #![trigger final(self).files@[i]]
                0 <= i < old(self).files@.len() ==> strings_view(final(self).files@[i].tags@)
                    == tagged_file(old(self).files@[i], strings_view(paths@), tag@) && (FileInfo {
                    tags: final(self).files@[i].tags,
                    ..old(self).files@[i]
                }) == final(self).files@[i],
            strings_view(old(self).available_tags@).contains(tag@) ==> final(self).available_tags
                == old(self).available_tags,
            !strings_view(old(self).available_tags@).contains(tag@) ==> sorted_strings(
                strings_view(final(self).available_tags@),
            ) && strings_view(final(self).available_tags@).to_multiset() == strings_view(
                old(self).available_tags@,
            ).push(tag@).to_multiset(),
            final(self).status_message matches Some((m, false)) && m@ == tagged_message(
                tagged_count as nat,
                tag@,
            ),
            *final(self) == (DiscoverState {
                files: final(self).files,
                available_tags: final(self).available_tags,
                status_message: final(self).status_message,
                ..*old(self)
            }),
    {
        let mut i: usize = 0;
        while i < self.files.len()
            invariant
                i <= self.files@.len(),
                self.files@.len() == old(self).files@.len(),
                forall|k: int|
                    #![trigger self.files@[k]]
                    0 <= k < i ==> strings_view(self.files@[k].tags@) == tagged_file(
                        old(self).files@[k],
                        strings_view(paths@),
                        tag@,
                    ) && (FileInfo { tags: self.files@[k].tags, ..old(self).files@[k] })
                        == self.files@[k],
                forall|k: int| i <= k < self.files@.len() ==> self.files@[k] == old(self).files@[k],
                *self == (DiscoverState { files: self.files, ..*old(self) }),
            decreases self.files@.len() - i,
        {
            let listed = contains_string(paths, self.files[i].rel_path.as_str());
            let already = contains_string(&self.files[i].tags, tag.as_str());
            if listed && !already {
                let ghost before = strings_view(self.files@[i as int].tags@);
                self.files[i].tags.push(owned(tag.as_str()));
                proof {
                    assert(strings_view(self.files@[i as int].tags@) =~= before.push(tag@));
                }
            }
            i += 1;
        }
        if !contains_string(&self.available_tags, tag.as_str()) {
            let mut all: Vec<String> = Vec::new();
            std::mem::swap(&mut all, &mut self.available_tags);
            let ghost before = strings_view(all@);
            all.push(owned(tag.as_str()));
            proof {
                assert(strings_view(all@) =~= before.push(tag@));
            }
            self.available_tags = sort_strings(&all);
        }
        let mut msg = owned("Tagged ");
        let n = u64_to_decimal(tagged_count as u64);
        push_str(&mut msg, n.as_str());
        push_str(&mut msg, " files with '");
        push_str(&mut msg, tag.as_str());
        push_str(&mut msg, "'");
        self.status_message = Some((msg, false));
    }
}

// ---------------------------------------------------------------------------
// Directory scans
// ---------------------------------------------------------------------------

/// What `std::path::Path::file_name` gives for a path, as text: its last
/// component, or nothing when there is none (a root, or a path ending in
/// `..`).
pub uninterp spec fn path_file_name(path: Seq<char>) -> Option<Seq<char>>;

/// Calls `std::path::Path::file_name`; the name of a `str` path is itself
/// text, so it converts without loss. Claims only that the result is that
/// function's, named `path_file_name`.
#[verifier::external_body]
pub(crate) fn file_name_of(path: &str) -> (r: Option<String>)
    ensures
        match r {
            Some(n) => path_file_name(path@) == Some(n@),
            None => path_file_name(path@) is None,
        },
{
    match std::path::Path::new(path).file_name() {
        Some(n) => Some(n.to_string_lossy().to_string()),
        None => None,
    }
}

/// "Scan started (Job #{id}) - press [2] to view Jobs"
pub open spec fn scan_started_message(job_id: i64) -> Seq<char> {
    "Scan started (Job #"@ + decimal_int(job_id as int) + ") - press [2] to view Jobs"@
}

/// "Scanned {count} files from {name}"
pub open spec fn scanned_message(count: nat, name: Seq<char>) -> Seq<char> {
    "Scanned "@ + decimal(count) + " files from "@ + name
}

/// The text a scan reports when its task ends without a result.
pub open spec fn scan_ended_message() -> Seq<char> {
    "Scan task ended unexpectedly"@
}

/// The progress shown when a scan starts: nothing counted yet, at
/// "Initializing...".
pub open spec fn initial_scan_progress(p: ScanProgress) -> bool {
    &&& p.dirs_scanned == 0
    &&& p.files_found == 0
    &&& p.files_persisted == 0
    &&& p.current_dir matches Some(d) && d@ == "Initializing..."@
    &&& p.elapsed_ms == 0
    &&& p.files_per_sec_milli == 0
    &&& !p.stalled
}

impl DiscoverState {
    /// Enters the scanning state for a checked path: the path is being
    /// scanned from now, with nothing counted yet; the Scanning view shows,
    /// with no error and no status message; the scan is added as a running
    /// job (see `JobsState::add_scan_job`), whose id is returned.
    pub fn enter_scanning(&mut self, path_display: &str, jobs: &mut crate::jobs_state::JobsState) -> (r: i64)
        ensures
            final(self).scanning_path matches Some(p) && p@ == path_display@,
            final(self).scan_progress matches Some(p) && initial_scan_progress(p),
            final(self).scan_start_time is Some,
            *final(self) == (DiscoverState {
                scanning_path: final(self).scanning_path,
                scan_progress: final(self).scan_progress,
                scan_start_time: final(self).scan_start_time,
                view_state: DiscoverViewState::Scanning,
                scan_error: None,
                status_message: None,
                ..*old(self)
            }),
            exists|j: crate::jobs::JobView|
                crate::job_updates::is_scan_job(j, path_display@, r) && crate::jobs::jobs_view(
                    final(jobs).jobs@,
                ) == crate::jobs_merge::trimmed(seq![j] + crate::jobs::jobs_view(old(jobs).jobs@)),
            final(jobs).same_but_jobs(old(jobs)),
    {
        self.scanning_path = Some(owned(path_display));
        let progress = ScanProgress {
            dirs_scanned: 0,
            files_found: 0,
            files_persisted: 0,
            current_dir: Some(owned("Initializing...")),
            elapsed_ms: 0,
            files_per_sec_milli: 0,
            stalled: false,
        };
        self.scan_progress = Some(progress);
        self.scan_start_time = Some(crate::clock::instant_now());
        self.view_state = DiscoverViewState::Scanning;
        self.scan_error = None;
        let job_id = jobs.add_scan_job(path_display);
        self.status_message = None;
        job_id
    }

    /// A scan passed its checks and started as a job.
    pub fn apply_scan_started(&mut self, job_id: i64)
        ensures
            final(self).status_message matches Some((m, false)) && m@ == scan_started_message(job_id),
            *final(self) == (DiscoverState { status_message: final(self).status_message, ..*old(self) }),
    {
        let mut msg = owned("Scan started (Job #");
        let n = i64_to_decimal(job_id);
        push_str(&mut msg, n.as_str());
        push_str(&mut msg, ") - press [2] to view Jobs");
        self.status_message = Some((msg, false));
    }

    /// A scan reported progress.
    pub fn apply_scan_progress(&mut self, progress: ScanProgress)
        ensures
            *final(self) == (DiscoverState { scan_progress: Some(progress), ..*old(self) }),
    {
        self.scan_progress = Some(progress);
    }

    /// A scan finished, named for the status line. The scanned path waits
    /// to be selected once the sources are reloaded; the files are to be
    /// loaded again from the first page; the scan's state is cleared and
    /// the rule builder shown, with "Scanned {count} files from {name}".
    pub fn apply_scan_complete_named(&mut self, source_path: String, source_name: &str, files_persisted: usize)
        ensures
            final(self).status_message matches Some((m, false)) && m@ == scanned_message(
                files_persisted as nat,
                source_name@,
            ),
            *final(self) == (DiscoverState {
                pending_select_source_path: Some(source_path),
                sources_loaded: false,
                data_loaded: false,
                db_filtered: false,
                page_offset: 0,
                total_files: files_persisted,
                selected: 0,
                scan_error: None,
                view_state: DiscoverViewState::RuleBuilder,
                scanning_path: None,
                scan_progress: None,
                scan_start_time: None,
                status_message: final(self).status_message,
                ..*old(self)
            }),
    {
        let mut msg = owned("Scanned ");
        let n = u64_to_decimal(files_persisted as u64);
        push_str(&mut msg, n.as_str());
        push_str(&mut msg, " files from ");
        push_str(&mut msg, source_name);
        self.pending_select_source_path = Some(source_path);
        self.sources_loaded = false;
        self.data_loaded = false;
        self.db_filtered = false;
        self.page_offset = 0;
        self.total_files = files_persisted;
        self.selected = 0;
        self.scan_error = None;
        self.view_state = DiscoverViewState::RuleBuilder;
        self.scanning_path = None;
        self.scan_progress = None;
        self.scan_start_time = None;
        self.status_message = Some((msg, false));
    }

    /// A scan finished; the status line names the source by the last
    /// component of its path, or by the whole path when it has none.
    pub fn apply_scan_complete(&mut self, source_path: String, files_persisted: usize)
        ensures
            ({
                let name = match path_file_name(source_path@) {
                    Some(n) => n,
                    None => source_path@,
                };
                final(self).status_message matches Some((m, false)) && m@ == scanned_message(
                    files_persisted as nat,
                    name,
                )
            }),
            final(self).pending_select_source_path == Some(source_path),
            *final(self) == (DiscoverState {
                pending_select_source_path: final(self).pending_select_source_path,
                sources_loaded: false,
                data_loaded: false,
                db_filtered: false,
                page_offset: 0,
                total_files: files_persisted,
                selected: 0,
                scan_error: None,
                view_state: DiscoverViewState::RuleBuilder,
                scanning_path: None,
                scan_progress: None,
                scan_start_time: None,
                status_message: final(self).status_message,
                ..*old(self)
            }),
    {
        let name = match file_name_of(source_path.as_str()) {
            Some(n) => n,
            None => owned(source_path.as_str()),
        };
        self.apply_scan_complete_named(source_path, name.as_str(), files_persisted);
    }

    /// A scan failed (or its task ended without a result): the error is
    /// shown on the files view and the scan's state cleared.
    pub fn apply_scan_failed(&mut self, err: String)
        ensures
            *final(self) == (DiscoverState {
                scan_error: Some(err),
                view_state: DiscoverViewState::Files,
                scanning_path: None,
                scan_progress: None,
                scan_start_time: None,
                ..*old(self)
            }),
    {
        self.scan_error = Some(err);
        self.view_state = DiscoverViewState::Files;
        self.scanning_path = None;
        self.scan_progress = None;
        self.scan_start_time = None;
    }

    /// A scan's task ended without a result: it counts as failed with
    /// "Scan task ended unexpectedly".
    pub fn apply_scan_lost(&mut self)
        ensures
            final(self).scan_error matches Some(e) && e@ == scan_ended_message(),
            *final(self) == (DiscoverState {
                scan_error: final(self).scan_error,
                view_state: DiscoverViewState::Files,
                scanning_path: None,
                scan_progress: None,
                scan_start_time: None,
                ..*old(self)
            }),
    {
        self.apply_scan_failed(owned("Scan task ended unexpectedly"));
    }
}

// ---------------------------------------------------------------------------
// Query results
// ---------------------------------------------------------------------------

/// The text a query reports when its task ends without a result.
pub open spec fn query_ended_message() -> Seq<char> {
    "Query task ended unexpectedly"@
}

impl QueryState {
    /// A query finished after `elapsed_ms`. On success the query joins the
    /// history, its results are kept and a waiting screen shows them; on
    /// failure the error is kept and a waiting screen returns to the
    /// editor.
    pub fn apply_query_result(&mut self, sql: &str, elapsed_ms: u64, result: Result<QueryResults, String>)
        ensures
            !final(self).executing,
            final(self).execution_time_ms == Some(elapsed_ms),
            match result {
                Ok(res) => {
                    &&& final(self).results == Some(res)
                    &&& final(self).error == old(self).error
                    &&& final(self).view_state == (if old(self).view_state
                        == QueryViewState::Executing {
                        QueryViewState::ViewingResults
                    } else {
                        old(self).view_state
                    })
                    &&& (trim_seq(sql@).len() == 0 ==> final(self).history == old(self).history)
                    &&& (trim_seq(sql@).len() > 0 ==> strings_view(final(self).history@)
                        == query_history_with(strings_view(old(self).history@), trim_seq(sql@)))
                },
                Err(e) => {
                    &&& final(self).results == old(self).results
                    &&& final(self).error == Some(e)
                    &&& final(self).view_state == (if old(self).view_state
                        == QueryViewState::Executing {
                        QueryViewState::Editing
                    } else {
                        old(self).view_state
                    })
                    &&& final(self).history == old(self).history
                },
            },
            final(self).sql_input == old(self).sql_input,
            final(self).cursor_position == old(self).cursor_position,
            final(self).history_index == old(self).history_index,
            final(self).draft_input == old(self).draft_input,
    {
        self.executing = false;
        self.execution_time_ms = Some(elapsed_ms);
        match result {
            Ok(res) => {
                self.add_to_history(sql);
                self.results = Some(res);
                if self.view_state == QueryViewState::Executing {
                    self.view_state = QueryViewState::ViewingResults;
                }
            },
            Err(e) => {
                self.error = Some(e);
                if self.view_state == QueryViewState::Executing {
                    self.view_state = QueryViewState::Editing;
                }
            },
        }
    }

    /// A query task ended without a result: the error says so and a
    /// waiting screen returns to the editor.
    pub fn apply_query_lost(&mut self)
        ensures
            !final(self).executing,
            final(self).error matches Some(e) && e@ == query_ended_message(),
            final(self).view_state == (if old(self).view_state == QueryViewState::Executing {
                QueryViewState::Editing
            } else {
                old(self).view_state
            }),
            final(self).results == old(self).results,
            final(self).history == old(self).history,
            final(self).sql_input == old(self).sql_input,
    {
        self.executing = false;
        self.error = Some(owned("Query task ended unexpectedly"));
        if self.view_state == QueryViewState::Executing {
            self.view_state = QueryViewState::Editing;
        }
    }
}


// ---------------------------------------------------------------------------
// Control service reachability and the rules list
// ---------------------------------------------------------------------------

/// Least time between two probes of the control service.
pub const CONTROL_PROBE_INTERVAL_MS: u128 = 2000;

/// A probe of the control service is due: never probed, or the last probe
/// is at least `CONTROL_PROBE_INTERVAL_MS` old.
pub fn control_probe_due(since_last_probe_ms: Option<u128>) -> (r: bool)
    ensures
        r == match since_last_probe_ms {
            Some(ms) => ms >= CONTROL_PROBE_INTERVAL_MS,
            None => true,
        },
{
    match since_last_probe_ms {
        Some(ms) => ms >= CONTROL_PROBE_INTERVAL_MS,
        None => true,
    }
}

/// The header message when the control service's reachability changes:
/// "Sentinel connected", or the error "Sentinel not reachable"; nothing
/// when it did not change.
pub fn connection_change_status(was_connected: bool, connected: bool) -> (r: Option<(&'static str, bool)>)
    ensures
        was_connected == connected ==> r is None,
        was_connected != connected && connected ==> (r matches Some((m, e)) && m@ == "Sentinel connected"@ && !e),
        was_connected != connected && !connected ==> (r matches Some((m, e)) && m@ == "Sentinel not reachable"@ && e),
{
    if was_connected == connected {
        None
    } else if connected {
        Some(("Sentinel connected", false))
    } else {
        Some(("Sentinel not reachable", true))
    }
}

impl DiscoverState {
    /// The rules list was loaded: it replaces the list, and a selection past
    /// the end of a non-empty list goes back to the first rule.
    pub fn apply_loaded_rules(&mut self, rules: Vec<RuleInfo>)
        ensures
            final(self).rules@ == rules@,
            final(self).selected_rule == (if old(self).selected_rule >= rules@.len() && rules@.len() > 0 {
                0
            } else {
                old(self).selected_rule
            }),
            *final(self) == (DiscoverState {
                rules: final(self).rules,
                selected_rule: final(self).selected_rule,
                ..*old(self)
            }),
    {
        self.rules = rules;
        if self.selected_rule >= self.rules.len() && self.rules.len() > 0 {
            self.selected_rule = 0;
        }
    }

    /// Loading the rules failed: "Rules load failed: {error}".
    pub fn apply_rules_load_error(&mut self, error: &str)
        ensures
            final(self).status_message matches Some((m, true)) && m@ == "Rules load failed: "@ + error@,
            *final(self) == (DiscoverState { status_message: final(self).status_message, ..*old(self) }),
    {
        self.status_message = Some((crate::text::concat2("Rules load failed: ", error), true));
    }
}


// ---------------------------------------------------------------------------
// Scans refused before they start
// ---------------------------------------------------------------------------

/// Why the scan worker refused a directory before scanning it.
#[derive(Debug, Clone)]
pub enum ScanConflict {
    /// Another directory is already a source under this name
    NameTaken { name: String, existing_path: String },
    /// The directory lies inside an existing source
    ChildOfExisting { error: String, existing_name: String },
    /// The directory contains an existing source
    ParentOfExisting { error: String, existing_name: String },
    /// Another overlap error
    Other { error: String },
}

/// What the status line says of a refused scan.
pub open spec fn scan_conflict_text(c: ScanConflict) -> Seq<char> {
    match c {
        ScanConflict::NameTaken { name, existing_path } => "A source named '"@ + name@
            + "' already exists at '"@ + existing_path@
            + "'. Use Sources Manager (M) to rename or delete it first."@,
        ScanConflict::ChildOfExisting { error, existing_name } => error@ + "\n\nSuggestion: "@
            + "Either delete source '"@ + existing_name@
            + "' first, or use tagging rules to organize files within that source."@,
        ScanConflict::ParentOfExisting { error, existing_name } => error@ + "\n\nSuggestion: "@
            + "Either delete source '"@ + existing_name@
            + "' first, or scan a non-overlapping directory."@,
        ScanConflict::Other { error } => error@ + "\n\nSuggestion: "@,
    }
}

/// See `scan_conflict_text`.
pub fn scan_conflict_message(c: &ScanConflict) -> (r: String)
    ensures
        r@ == scan_conflict_text(*c),
{
    match c {
        ScanConflict::NameTaken { name, existing_path } => {
            let mut m = concat3("A source named '", name.as_str(), "' already exists at '");
            push_str(&mut m, existing_path.as_str());
            push_str(&mut m, "'. Use Sources Manager (M) to rename or delete it first.");
            m
        },
        ScanConflict::ChildOfExisting { error, existing_name } => {
            let mut m = concat2(error.as_str(), "\n\nSuggestion: ");
            push_str(&mut m, "Either delete source '");
            push_str(&mut m, existing_name.as_str());
            push_str(&mut m, "' first, or use tagging rules to organize files within that source.");
            m
        },
        ScanConflict::ParentOfExisting { error, existing_name } => {
            let mut m = concat2(error.as_str(), "\n\nSuggestion: ");
            push_str(&mut m, "Either delete source '");
            push_str(&mut m, existing_name.as_str());
            push_str(&mut m, "' first, or scan a non-overlapping directory.");
            m
        },
        ScanConflict::Other { error } => concat2(error.as_str(), "\n\nSuggestion: "),
    }
}

impl DiscoverState {
    /// A local scan cannot start without a workspace: the status line says
    /// "No workspace available; cannot scan.".
    pub fn refuse_scan_without_workspace(&mut self)
        ensures
            final(self).status_message matches Some((m, true)) && m@ == "No workspace available; cannot scan."@,
            *final(self) == (DiscoverState { status_message: final(self).status_message, ..*old(self) }),
    {
        self.status_message = Some((owned("No workspace available; cannot scan."), true));
    }

    /// A scan cannot start because writes are blocked: the blocked message
    /// for "start scan" is the scan error and the status line, and is
    /// returned for the header.
    pub fn refuse_blocked_scan(&mut self, router: &crate::backend::BackendRouter) -> (r: String)
        ensures
            r@ == router.blocked_text("start scan"@),
            final(self).scan_error matches Some(e) && e@ == r@,
            final(self).status_message matches Some((m, true)) && m@ == r@,
            *final(self) == (DiscoverState {
                scan_error: final(self).scan_error,
                status_message: final(self).status_message,
                ..*old(self)
            }),
    {
        let message = router.blocked_message("start scan");
        self.scan_error = Some(owned(message.as_str()));
        self.status_message = Some((owned(message.as_str()), true));
        message
    }
}

} // verus!

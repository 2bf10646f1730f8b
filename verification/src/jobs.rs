//! Jobs: their records, statuses, and the Jobs screen state (filters, the
//! actionable and ready lists, merging a refreshed snapshot).
//!
//! Times are milliseconds since the Unix epoch.
use vstd::prelude::*;
use std::collections::VecDeque;


use crate::text::{char_to_ascii_lower, concat2, concat3, lower_seq, owned, push_str, str_chars};

verus! {

/// Maximum number of jobs kept in the jobs list.
pub const MAX_JOBS: usize = 200;

/// Job type.
#[derive(Debug, Clone, Copy, PartialEq, Eq, Structural)]
pub enum JobType {
    Scan,
    Parse,
    Backtest,
    /// Schema analysis job
    SchemaEval,
}

impl JobType {
    pub fn as_str(&self) -> (r: &'static str)
        ensures
            r@ == (match *self {
                JobType::Scan => "SCAN"@,
                JobType::Parse => "PARSE"@,
                JobType::Backtest => "BACKTEST"@,
                JobType::SchemaEval => "SCHEMA"@,
            }),
    {
        match self {
            JobType::Scan => "SCAN",
            JobType::Parse => "PARSE",
            JobType::Backtest => "BACKTEST",
            JobType::SchemaEval => "SCHEMA",
        }
    }
}

/// Where a job record comes from (persistent store vs local UI).
#[derive(Debug, Clone, Copy, PartialEq, Eq, Structural)]
pub enum JobOrigin {
    Persistent,
    Ephemeral,
}

/// Mode for schema evaluation.
#[derive(Debug, Clone, Copy, PartialEq, Eq, Structural)]
pub enum SchemaEvalMode {
    Sample,
    Full,
}

/// Job status as shown in the UI.
#[derive(Debug, Clone, Copy, PartialEq, Eq, Structural)]
pub enum JobStatus {
    Pending,
    Running,
    Completed,
    PartialSuccess,
    Failed,
    Cancelled,
}

impl JobStatus {
    pub open spec fn symbol_spec(self) -> Seq<char> {
        match self {
            JobStatus::Pending => "\u{25cb}"@,
            JobStatus::Running => "\u{21bb}"@,
            JobStatus::Completed => "\u{2713}"@,
            JobStatus::PartialSuccess => "\u{26a0}"@,
            JobStatus::Failed => "\u{2717}"@,
            JobStatus::Cancelled => "\u{2298}"@,
        }
    }

    pub open spec fn text(self) -> Seq<char> {
        match self {
            JobStatus::Pending => "Pending"@,
            JobStatus::Running => "Running"@,
            JobStatus::Completed => "Completed"@,
            JobStatus::PartialSuccess => "Partial"@,
            JobStatus::Failed => "Failed"@,
            JobStatus::Cancelled => "Cancelled"@,
        }
    }

    /// Display symbol: ○ pending, ↻ running, ✓ complete, ⚠ partial, ✗ failed, ⊘ cancelled.
    pub fn symbol(&self) -> (r: &'static str)
        ensures
            r@ == self.symbol_spec(),
    {
        match self {
            JobStatus::Pending => "\u{25cb}",
            JobStatus::Running => "\u{21bb}",
            JobStatus::Completed => "\u{2713}",
            JobStatus::PartialSuccess => "\u{26a0}",
            JobStatus::Failed => "\u{2717}",
            JobStatus::Cancelled => "\u{2298}",
        }
    }

    pub fn as_str(&self) -> (r: &'static str)
        ensures
            r@ == self.text(),
    {
        match self {
            JobStatus::Pending => "Pending",
            JobStatus::Running => "Running",
            JobStatus::Completed => "Completed",
            JobStatus::PartialSuccess => "Partial",
            JobStatus::Failed => "Failed",
            JobStatus::Cancelled => "Cancelled",
        }
    }
}

/// Queue state of a job as the store records it.
#[derive(Debug, Clone, Copy, PartialEq, Eq, Structural)]
pub enum QueueStatus {
    Pending,
    Queued,
    Dispatching,
    Running,
    Staged,
    Skipped,
    Aborted,
    Failed,
    Completed,
}

/// Outcome a finished job reports.
#[derive(Debug, Clone, Copy, PartialEq, Eq, Structural)]
pub enum OutcomeStatus {
    Success,
    PartialSuccess,
    CompletedWithWarnings,
    Failed,
    Aborted,
    Rejected,
}

/// Equal ignoring ASCII case.
pub open spec fn eq_ignore_ascii_case(a: Seq<char>, b: Seq<char>) -> bool {
    a.len() == b.len() && lower_seq(a) == lower_seq(b)
}

/// The UI status for a stored queue state and outcome:
/// pending, queued, dispatching: pending; running, staged: running; skipped:
/// completed; aborted: cancelled; failed: cancelled if the outcome is
/// aborted, else failed; completed: partial for a partial success or
/// completion with warnings, failed, cancelled for aborted, else completed.
/// A queue state that is not one of these: cancelled when the text reads
/// "Cancelled" in any case, else the text read as an outcome (success:
/// completed, partial or with warnings: partial, failed, aborted:
/// cancelled, rejected: pending), else pending.
pub open spec fn ui_status(
    queue_text: Seq<char>,
    queue: Option<QueueStatus>,
    outcome: Option<OutcomeStatus>,
    legacy: Option<OutcomeStatus>,
) -> JobStatus {
    match queue {
        Some(QueueStatus::Pending) | Some(QueueStatus::Queued) | Some(QueueStatus::Dispatching) =>
            JobStatus::Pending,
        Some(QueueStatus::Running) | Some(QueueStatus::Staged) => JobStatus::Running,
        Some(QueueStatus::Skipped) => JobStatus::Completed,
        Some(QueueStatus::Aborted) => JobStatus::Cancelled,
        Some(QueueStatus::Failed) => if outcome == Some(OutcomeStatus::Aborted) {
            JobStatus::Cancelled
        } else {
            JobStatus::Failed
        },
        Some(QueueStatus::Completed) => match outcome {
            Some(OutcomeStatus::PartialSuccess) | Some(OutcomeStatus::CompletedWithWarnings) =>
                JobStatus::PartialSuccess,
            Some(OutcomeStatus::Failed) => JobStatus::Failed,
            Some(OutcomeStatus::Aborted) => JobStatus::Cancelled,
            _ => JobStatus::Completed,
        },
        None => if eq_ignore_ascii_case(queue_text, "Cancelled"@) {
            JobStatus::Cancelled
        } else {
            match legacy {
                Some(OutcomeStatus::Success) => JobStatus::Completed,
                Some(OutcomeStatus::PartialSuccess) | Some(OutcomeStatus::CompletedWithWarnings) =>
                    JobStatus::PartialSuccess,
                Some(OutcomeStatus::Failed) => JobStatus::Failed,
                Some(OutcomeStatus::Aborted) => JobStatus::Cancelled,
                Some(OutcomeStatus::Rejected) => JobStatus::Pending,
                None => JobStatus::Pending,
            }
        },
    }
}

fn str_eq_ignore_ascii_case(a: &str, b: &str) -> (r: bool)
    ensures
        r == eq_ignore_ascii_case(a@, b@),
{
    let x = str_chars(a);
    let y = str_chars(b);
    if x.len() != y.len() {
        return false;
    }
    let mut i: usize = 0;
    while i < x.len()
        invariant
            i <= x@.len(),
            x@.len() == y@.len(),
            x@ == a@,
            y@ == b@,
            forall|k: int| 0 <= k < i ==> lower_seq(x@)[k] == lower_seq(y@)[k],
        decreases x@.len() - i,
    {
        if char_to_ascii_lower(x[i]) != char_to_ascii_lower(y[i]) {
            proof {
                assert(lower_seq(x@)[i as int] != lower_seq(y@)[i as int]);
            }
            return false;
        }
        i += 1;
    }
    proof {
        assert(lower_seq(x@) =~= lower_seq(y@));
    }
    true
}

impl JobStatus {
    /// The UI status for a job record: its queue state as stored
    /// (`queue_status_str`), that text read as a queue state, the recorded
    /// outcome read as an outcome, and the queue text read as an outcome (for
    /// records written before queue states existed). Unreadable values are
    /// `None`.
    pub fn from_db_status(
        queue_status_str: &str,
        queue_status: Option<QueueStatus>,
        completion_status: Option<OutcomeStatus>,
        legacy_status: Option<OutcomeStatus>,
    ) -> (r: JobStatus)
        ensures
            r == ui_status(queue_status_str@, queue_status, completion_status, legacy_status),
    {
        match queue_status {
            Some(QueueStatus::Pending) | Some(QueueStatus::Queued) | Some(QueueStatus::Dispatching) =>
                JobStatus::Pending,
            Some(QueueStatus::Running) | Some(QueueStatus::Staged) => JobStatus::Running,
            Some(QueueStatus::Skipped) => JobStatus::Completed,
            Some(QueueStatus::Aborted) => JobStatus::Cancelled,
            Some(QueueStatus::Failed) => {
                if completion_status == Some(OutcomeStatus::Aborted) {
                    JobStatus::Cancelled
                } else {
                    JobStatus::Failed
                }
            },
            Some(QueueStatus::Completed) => match completion_status {
                Some(OutcomeStatus::PartialSuccess) | Some(OutcomeStatus::CompletedWithWarnings) =>
                    JobStatus::PartialSuccess,
                Some(OutcomeStatus::Failed) => JobStatus::Failed,
                Some(OutcomeStatus::Aborted) => JobStatus::Cancelled,
                _ => JobStatus::Completed,
            },
            None => {
                if str_eq_ignore_ascii_case(queue_status_str, JobStatus::Cancelled.as_str()) {
                    JobStatus::Cancelled
                } else {
                    match legacy_status {
                        Some(OutcomeStatus::Success) => JobStatus::Completed,
                        Some(OutcomeStatus::PartialSuccess) | Some(
                            OutcomeStatus::CompletedWithWarnings,
                        ) => JobStatus::PartialSuccess,
                        Some(OutcomeStatus::Failed) => JobStatus::Failed,
                        Some(OutcomeStatus::Aborted) => JobStatus::Cancelled,
                        Some(OutcomeStatus::Rejected) => JobStatus::Pending,
                        None => JobStatus::Pending,
                    }
                }
            },
        }
    }
}

/// Backtest-specific job information; the pass rate is in parts per million.
#[derive(Debug, Clone, Copy, PartialEq, Eq, Structural)]
pub struct BacktestInfo {
    pub pass_rate_ppm: u32,
    pub iteration: u32,
    pub high_failure_passed: u32,
}

/// Types of schema violations.
#[derive(Debug, Clone, Copy, PartialEq, Eq, Structural)]
pub enum ViolationType {
    TypeMismatch,
    NullNotAllowed,
    FormatMismatch,
    ColumnNameMismatch,
    ColumnCountMismatch,
}

impl ViolationType {
    pub fn symbol(&self) -> (r: &'static str)
        ensures
            r@ == (match *self {
                ViolationType::TypeMismatch => "\u{2298}"@,
                ViolationType::NullNotAllowed => "\u{2205}"@,
                ViolationType::FormatMismatch => "\u{2260}"@,
                ViolationType::ColumnNameMismatch => "\u{2262}"@,
                ViolationType::ColumnCountMismatch => "#"@,
            }),
    {
        match self {
            ViolationType::TypeMismatch => "\u{2298}",
            ViolationType::NullNotAllowed => "\u{2205}",
            ViolationType::FormatMismatch => "\u{2260}",
            ViolationType::ColumnNameMismatch => "\u{2262}",
            ViolationType::ColumnCountMismatch => "#",
        }
    }

    pub fn as_str(&self) -> (r: &'static str)
        ensures
            r@ == (match *self {
                ViolationType::TypeMismatch => "TypeMismatch"@,
                ViolationType::NullNotAllowed => "NullNotAllowed"@,
                ViolationType::FormatMismatch => "FormatMismatch"@,
                ViolationType::ColumnNameMismatch => "ColumnNameMismatch"@,
                ViolationType::ColumnCountMismatch => "ColumnCountMismatch"@,
            }),
    {
        match self {
            ViolationType::TypeMismatch => "TypeMismatch",
            ViolationType::NullNotAllowed => "NullNotAllowed",
            ViolationType::FormatMismatch => "FormatMismatch",
            ViolationType::ColumnNameMismatch => "ColumnNameMismatch",
            ViolationType::ColumnCountMismatch => "ColumnCountMismatch",
        }
    }
}

/// Suggested fix for a violation.
#[derive(Debug, Clone)]
pub enum SuggestedFix {
    ChangeType { from: String, to: String },
    MakeNullable,
    ChangeFormat { suggested: String },
    AddColumn { name: String, data_type: String },
    RemoveColumn { name: String },
}

impl SuggestedFix {
    pub open spec fn display_spec(&self) -> Seq<char> {
        match self {
            SuggestedFix::ChangeType { to, .. } => "ChangeType to "@ + to@,
            SuggestedFix::MakeNullable => "MakeNullable"@,
            SuggestedFix::ChangeFormat { suggested } => "ChangeFormat to "@ + suggested@,
            SuggestedFix::AddColumn { name, data_type } => "AddColumn "@ + name@ + " ("@
                + data_type@ + ")"@,
            SuggestedFix::RemoveColumn { name } => "RemoveColumn "@ + name@,
        }
    }

    pub fn display(&self) -> (r: String)
        ensures
            r@ == self.display_spec(),
    {
        match self {
            SuggestedFix::ChangeType { to, .. } => concat2("ChangeType to ", to.as_str()),
            SuggestedFix::MakeNullable => owned("MakeNullable"),
            SuggestedFix::ChangeFormat { suggested } => concat2(
                "ChangeFormat to ",
                suggested.as_str(),
            ),
            SuggestedFix::AddColumn { name, data_type } => {
                let mut s = concat3("AddColumn ", name.as_str(), " (");
                push_str(&mut s, data_type.as_str());
                push_str(&mut s, ")");
                s
            },
            SuggestedFix::RemoveColumn { name } => concat2("RemoveColumn ", name.as_str()),
        }
    }

    pub fn duplicate(&self) -> (r: Self)
        ensures
            r == *self,
    {
        match self {
            SuggestedFix::ChangeType { from, to } => SuggestedFix::ChangeType {
                from: from.clone(),
                to: to.clone(),
            },
            SuggestedFix::MakeNullable => SuggestedFix::MakeNullable,
            SuggestedFix::ChangeFormat { suggested } => SuggestedFix::ChangeFormat {
                suggested: suggested.clone(),
            },
            SuggestedFix::AddColumn { name, data_type } => SuggestedFix::AddColumn {
                name: name.clone(),
                data_type: data_type.clone(),
            },
            SuggestedFix::RemoveColumn { name } => SuggestedFix::RemoveColumn {
                name: name.clone(),
            },
        }
    }
}

fn dup_opt_string(o: &Option<String>) -> (r: Option<String>)
    ensures
        r == *o,
{
    match o {
        Some(s) => Some(s.clone()),
        None => None,
    }
}

fn dup_strings(v: &Vec<String>) -> (r: Vec<String>)
    ensures
        r@ == v@,
{
    let mut r: Vec<String> = Vec::new();
    let mut i: usize = 0;
    while i < v.len()
        invariant
            i <= v@.len(),
            r@ == v@.subrange(0, i as int),
        decreases v@.len() - i,
    {
        r.push(v[i].clone());
        i += 1;
        assert(r@ =~= v@.subrange(0, i as int));
    }
    assert(v@.subrange(0, v@.len() as int) =~= v@);
    r
}

/// Summary of schema violations; the share of affected rows is in
/// thousandths of a percent.
#[derive(Debug, Clone)]
pub struct ViolationSummary {
    pub violation_type: ViolationType,
    pub count: u32,
    pub pct_of_rows_milli: u32,
    pub column: String,
    pub samples: Vec<String>,
    pub suggested_fix: Option<SuggestedFix>,
    pub confidence: Option<String>,
    pub expected: Option<String>,
    pub actual: Option<String>,
}

/// Mathematical content of a violation summary.
pub struct ViolationView {
    pub violation_type: ViolationType,
    pub count: u32,
    pub pct_of_rows_milli: u32,
    pub column: String,
    pub samples: Seq<String>,
    pub suggested_fix: Option<SuggestedFix>,
    pub confidence: Option<String>,
    pub expected: Option<String>,
    pub actual: Option<String>,
}

impl ViolationSummary {
    pub open spec fn view(&self) -> ViolationView {
        ViolationView {
            violation_type: self.violation_type,
            count: self.count,
            pct_of_rows_milli: self.pct_of_rows_milli,
            column: self.column,
            samples: self.samples@,
            suggested_fix: self.suggested_fix,
            confidence: self.confidence,
            expected: self.expected,
            actual: self.actual,
        }
    }

    pub fn duplicate(&self) -> (r: Self)
        ensures
            r.view() == self.view(),
    {
        ViolationSummary {
            violation_type: self.violation_type,
            count: self.count,
            pct_of_rows_milli: self.pct_of_rows_milli,
            column: self.column.clone(),
            samples: dup_strings(&self.samples),
            suggested_fix: match &self.suggested_fix {
                Some(f) => Some(f.duplicate()),
                None => None,
            },
            confidence: dup_opt_string(&self.confidence),
            expected: dup_opt_string(&self.expected),
            actual: dup_opt_string(&self.actual),
        }
    }
}

/// Job failure details.
#[derive(Debug, Clone)]
pub struct JobFailure {
    pub file_path: String,
    pub error: String,
    pub line: Option<u32>,
}

impl JobFailure {
    pub fn duplicate(&self) -> (r: Self)
        ensures
            r == *self,
    {
        JobFailure { file_path: self.file_path.clone(), error: self.error.clone(), line: self.line }
    }
}

pub(crate) fn dup_failures(v: &Vec<JobFailure>) -> (r: Vec<JobFailure>)
    ensures
        r@ == v@,
{
    let mut r: Vec<JobFailure> = Vec::new();
    let mut i: usize = 0;
    while i < v.len()
        invariant
            i <= v@.len(),
            r@ == v@.subrange(0, i as int),
        decreases v@.len() - i,
    {
        r.push(v[i].duplicate());
        i += 1;
        assert(r@ =~= v@.subrange(0, i as int));
    }
    assert(v@.subrange(0, v@.len() as int) =~= v@);
    r
}

pub open spec fn violations_view(v: Seq<ViolationSummary>) -> Seq<ViolationView> {
    v.map_values(|x: ViolationSummary| x.view())
}

pub(crate) fn dup_violations(v: &Vec<ViolationSummary>) -> (r: Vec<ViolationSummary>)
    ensures
        violations_view(r@) == violations_view(v@),
{
    let mut r: Vec<ViolationSummary> = Vec::new();
    let mut i: usize = 0;
    while i < v.len()
        invariant
            i <= v@.len(),
            violations_view(r@) == violations_view(v@.subrange(0, i as int)),
        decreases v@.len() - i,
    {
        let ghost before = r@;
        r.push(v[i].duplicate());
        i += 1;
        assert(violations_view(r@) =~= violations_view(v@.subrange(0, i as int))) by {
            assert(violations_view(r@) =~= violations_view(before).push(v@[i - 1].view()));
        }
    }
    assert(v@.subrange(0, v@.len() as int) =~= v@);
    r
}

/// Information about a job.
#[derive(Debug, Clone)]
pub struct JobInfo {
    pub id: i64,
    pub file_id: Option<i64>,
    pub job_type: JobType,
    pub origin: JobOrigin,
    pub name: String,
    pub version: Option<String>,
    pub status: JobStatus,
    pub started_at: i64,
    pub completed_at: Option<i64>,
    pub pipeline_run_id: Option<String>,
    pub logical_date: Option<String>,
    pub selection_snapshot_hash: Option<String>,
    pub quarantine_rows: Option<i64>,
    pub items_total: u32,
    pub items_processed: u32,
    pub items_failed: u32,
    pub output_path: Option<String>,
    pub output_size_bytes: Option<u64>,
    pub backtest: Option<BacktestInfo>,
    pub failures: Vec<JobFailure>,
    pub violations: Vec<ViolationSummary>,
    /// Whether top violations have been loaded for this job
    pub top_violations_loaded: bool,
    /// Index of the selected violation (violation detail view)
    pub selected_violation_index: usize,
}

/// Mathematical content of a job record.
pub struct JobView {
    pub id: i64,
    pub file_id: Option<i64>,
    pub job_type: JobType,
    pub origin: JobOrigin,
    pub name: String,
    pub version: Option<String>,
    pub status: JobStatus,
    pub started_at: i64,
    pub completed_at: Option<i64>,
    pub pipeline_run_id: Option<String>,
    pub logical_date: Option<String>,
    pub selection_snapshot_hash: Option<String>,
    pub quarantine_rows: Option<i64>,
    pub items_total: u32,
    pub items_processed: u32,
    pub items_failed: u32,
    pub output_path: Option<String>,
    pub output_size_bytes: Option<u64>,
    pub backtest: Option<BacktestInfo>,
    pub failures: Seq<JobFailure>,
    pub violations: Seq<ViolationView>,
    pub top_violations_loaded: bool,
    pub selected_violation_index: usize,
}

impl JobInfo {
    pub open spec fn view(&self) -> JobView {
        JobView {
            id: self.id,
            file_id: self.file_id,
            job_type: self.job_type,
            origin: self.origin,
            name: self.name,
            version: self.version,
            status: self.status,
            started_at: self.started_at,
            completed_at: self.completed_at,
            pipeline_run_id: self.pipeline_run_id,
            logical_date: self.logical_date,
            selection_snapshot_hash: self.selection_snapshot_hash,
            quarantine_rows: self.quarantine_rows,
            items_total: self.items_total,
            items_processed: self.items_processed,
            items_failed: self.items_failed,
            output_path: self.output_path,
            output_size_bytes: self.output_size_bytes,
            backtest: self.backtest,
            failures: self.failures@,
            violations: violations_view(self.violations@),
            top_violations_loaded: self.top_violations_loaded,
            selected_violation_index: self.selected_violation_index,
        }
    }

    /// A pending persistent parse job with id 0, started `now_ms`, no
    /// progress and no details.
    pub fn new_at(now_ms: i64) -> (r: Self)
        ensures
            r.id == 0,
            r.file_id is None,
            r.job_type == JobType::Parse,
            r.origin == JobOrigin::Persistent,
            r.name@ == Seq::<char>::empty(),
            r.version is None,
            r.status == JobStatus::Pending,
            r.started_at == now_ms,
            r.completed_at is None,
            r.pipeline_run_id is None,
            r.logical_date is None,
            r.selection_snapshot_hash is None,
            r.quarantine_rows is None,
            r.items_total == 0 && r.items_processed == 0 && r.items_failed == 0,
            r.output_path is None,
            r.output_size_bytes is None,
            r.backtest is None,
            r.failures@.len() == 0,
            r.violations@.len() == 0,
            !r.top_violations_loaded,
            r.selected_violation_index == 0,
    {
        JobInfo {
            id: 0,
            file_id: None,
            job_type: JobType::Parse,
            origin: JobOrigin::Persistent,
            name: String::new(),
            version: None,
            status: JobStatus::Pending,
            started_at: now_ms,
            completed_at: None,
            pipeline_run_id: None,
            logical_date: None,
            selection_snapshot_hash: None,
            quarantine_rows: None,
            items_total: 0,
            items_processed: 0,
            items_failed: 0,
            output_path: None,
            output_size_bytes: None,
            backtest: None,
            failures: Vec::new(),
            violations: Vec::new(),
            top_violations_loaded: false,
            selected_violation_index: 0,
        }
    }

    /// The default job record, started now.
    pub fn new_now() -> (r: Self)
        ensures
            r.id == 0,
            r.status == JobStatus::Pending,
            r.job_type == JobType::Parse,
            r.origin == JobOrigin::Persistent,
            r.failures@.len() == 0,
            r.violations@.len() == 0,
    {
        JobInfo::new_at(crate::clock::now_millis())
    }

    /// A copy with the same content.
    pub fn duplicate(&self) -> (r: Self)
        ensures
            r.view() == self.view(),
    {
        JobInfo {
            id: self.id,
            file_id: self.file_id,
            job_type: self.job_type,
            origin: self.origin,
            name: self.name.clone(),
            version: dup_opt_string(&self.version),
            status: self.status,
            started_at: self.started_at,
            completed_at: self.completed_at,
            pipeline_run_id: dup_opt_string(&self.pipeline_run_id),
            logical_date: dup_opt_string(&self.logical_date),
            selection_snapshot_hash: dup_opt_string(&self.selection_snapshot_hash),
            quarantine_rows: self.quarantine_rows,
            items_total: self.items_total,
            items_processed: self.items_processed,
            items_failed: self.items_failed,
            output_path: dup_opt_string(&self.output_path),
            output_size_bytes: self.output_size_bytes,
            backtest: self.backtest,
            failures: dup_failures(&self.failures),
            violations: dup_violations(&self.violations),
            top_violations_loaded: self.top_violations_loaded,
            selected_violation_index: self.selected_violation_index,
        }
    }
}

pub open spec fn jobs_view(v: Seq<JobInfo>) -> Seq<JobView> {
    v.map_values(|j: JobInfo| j.view())
}

/// View states within the Jobs screen.
#[derive(Debug, Clone, Copy, PartialEq, Eq, Structural)]
pub enum JobsViewState {
    JobList,
    DetailPanel,
    LogViewer,
    FilterDialog,
    MonitoringPanel,
    ViolationDetail,
}

/// Focused list in the Jobs screen.
#[derive(Debug, Clone, Copy, PartialEq, Eq, Structural)]
pub enum JobsListSection {
    Actionable,
    Ready,
}

/// Queue statistics for monitoring.
#[derive(Debug, Clone)]
pub struct QueueStats {
    pub pending: u32,
    pub running: u32,
    pub completed: u32,
    pub failed: u32,
    pub depth_history: VecDeque<u32>,
}

/// Throughput sample for sparklines; rows per second in thousandths.
#[derive(Debug, Clone)]
pub struct ThroughputSample {
    pub timestamp_ms: i64,
    pub rows_per_second_milli: u64,
}

/// Sink statistics.
#[derive(Debug, Clone)]
pub struct SinkStats {
    pub uri: String,
    pub total_rows: u64,
    pub total_bytes: u64,
    pub error_count: u32,
    pub latency_p50_ms: u32,
    pub latency_p99_ms: u32,
    pub outputs: Vec<SinkOutput>,
}

/// Individual sink output.
#[derive(Debug, Clone)]
pub struct SinkOutput {
    pub name: String,
    pub rows: u64,
    pub bytes: u64,
}

/// Monitoring panel state.
#[derive(Debug, Clone)]
pub struct MonitoringState {
    pub queue: QueueStats,
    pub throughput_history: VecDeque<ThroughputSample>,
    pub sinks: Vec<SinkStats>,
    pub paused: bool,
}

impl MonitoringState {
    pub fn empty() -> (r: Self)
        ensures
            r.queue.pending == 0 && r.queue.running == 0 && r.queue.completed == 0
                && r.queue.failed == 0,
            r.queue.depth_history@.len() == 0,
            r.throughput_history@.len() == 0,
            r.sinks@.len() == 0,
            !r.paused,
    {
        MonitoringState {
            queue: QueueStats {
                pending: 0,
                running: 0,
                completed: 0,
                failed: 0,
                depth_history: VecDeque::new(),
            },
            throughput_history: VecDeque::new(),
            sinks: Vec::new(),
            paused: false,
        }
    }
}

/// Pipeline stage counts.
#[derive(Debug, Clone, Copy, PartialEq, Eq, Structural)]
pub struct PipelineStage {
    pub count: u32,
    pub in_progress: u32,
}

/// Pipeline state for visualization.
#[derive(Debug, Clone)]
pub struct PipelineState {
    pub source: PipelineStage,
    pub parsed: PipelineStage,
    pub output: PipelineStage,
    pub active_parser: Option<String>,
}

/// Summary of a job for the Home activity panel; duration in milliseconds.
#[derive(Debug, Clone)]
pub struct JobSummary {
    pub id: i64,
    pub job_type: String,
    pub description: String,
    pub status: JobStatus,
    pub progress_percent: Option<u8>,
    pub duration_ms: Option<u64>,
}

} // verus!

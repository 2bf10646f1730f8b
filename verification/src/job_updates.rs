//! Jobs the screens track themselves: a directory scan added as a running
//! job, and status updates of a tracked job.
use vstd::prelude::*;
use crate::jobs::{jobs_view, ui_status, JobFailure, JobInfo, JobOrigin, JobStatus, JobType, JobView, OutcomeStatus, QueueStatus, SchemaEvalMode};
use crate::jobs_merge::trimmed;
use crate::jobs_state::JobsState;
use crate::clock::{now_millis, parse_rfc3339_millis, rfc3339_millis};
use crate::text::owned;
use crate::glob_pattern::opt_string_view;

verus! {

/// A status that ends a job.
pub open spec fn is_final(status: JobStatus) -> bool {
    match status {
        JobStatus::Completed | JobStatus::PartialSuccess | JobStatus::Failed
        | JobStatus::Cancelled => true,
        _ => false,
    }
}

/// `i` is the first job with this id.
pub open spec fn first_job(jobs: Seq<JobInfo>, id: i64, i: int) -> bool {
    &&& 0 <= i < jobs.len()
    &&& jobs[i].id == id
    &&& forall|k: int| 0 <= k < i ==> jobs[k].id != id
}

/// The job after a status update at `now_ms`: the new status; the counts
/// given; finished at `now_ms` when the status ends it; and an error, if
/// any, added as a failure with no file and no line.
pub open spec fn updated_job(
    old: JobView,
    new: JobView,
    status: JobStatus,
    error: Option<Seq<char>>,
    processed: Option<u32>,
    total: Option<u32>,
    now_ms: i64,
) -> bool {
    &&& new == (JobView {
        status,
        items_processed: match processed {
            Some(p) => p,
            None => old.items_processed,
        },
        items_total: match total {
            Some(t) => t,
            None => old.items_total,
        },
        completed_at: if is_final(status) {
            Some(now_ms)
        } else {
            old.completed_at
        },
        failures: new.failures,
        ..old
    })
    &&& match error {
        Some(e) => {
            &&& new.failures.len() == old.failures.len() + 1
            &&& new.failures.drop_last() == old.failures
            &&& new.failures.last().file_path@ == Seq::<char>::empty()
            &&& new.failures.last().error@ == e
            &&& new.failures.last().line is None
        },
        None => new.failures == old.failures,
    }
}

/// The running scan job for a directory, started at `now_ms` and named by
/// that time.
pub open spec fn is_scan_job(j: JobView, directory: Seq<char>, now_ms: i64) -> bool {
    &&& j.id == now_ms
    &&& j.file_id is None
    &&& j.job_type == JobType::Scan
    &&& j.origin == JobOrigin::Ephemeral
    &&& j.name@ == "scan"@
    &&& j.version is None
    &&& j.status == JobStatus::Running
    &&& j.started_at == now_ms
    &&& j.completed_at is None
    &&& j.pipeline_run_id is None
    &&& j.logical_date is None
    &&& j.selection_snapshot_hash is None
    &&& j.quarantine_rows is None
    &&& j.items_total == 0
    &&& j.items_processed == 0
    &&& j.items_failed == 0
    &&& j.output_path matches Some(p) && p@ == directory
    &&& j.output_size_bytes is None
    &&& j.backtest is None
    &&& j.failures.len() == 0
    &&& j.violations.len() == 0
    &&& !j.top_violations_loaded
    &&& j.selected_violation_index == 0
}

impl JobsState {
    /// Updates the status of the first job with this id at `now_ms` (see
    /// `updated_job`); with no such job nothing changes.
    pub fn update_job_status(
        &mut self,
        job_id: i64,
        status: JobStatus,
        error: Option<String>,
        processed: Option<u32>,
        total: Option<u32>,
        now_ms: i64,
    )
        ensures
            final(self).same_but_jobs(old(self)),
            final(self).jobs@.len() == old(self).jobs@.len(),
            !(exists|i: int| first_job(old(self).jobs@, job_id, i)) ==> final(self).jobs@ == old(
                self,
            ).jobs@,
            forall|i: int|
                first_job(old(self).jobs@, job_id, i) ==> updated_job(
                    old(self).jobs@[i].view(),
                    final(self).jobs@[i].view(),
                    status,
                    match error {
                        Some(e) => Some(e@),
                        None => None,
                    },
                    processed,
                    total,
                    now_ms,
                ) && forall|k: int|
                    0 <= k < old(self).jobs@.len() && k != i ==> final(self).jobs@[k] == old(
                        self,
                    ).jobs@[k],
    {
        let mut i: usize = 0;
        while i < self.jobs.len() && self.jobs[i].id != job_id
            invariant
                i <= self.jobs@.len(),
                self.jobs@ == old(self).jobs@,
                forall|k: int| 0 <= k < i ==> self.jobs@[k].id != job_id,
            decreases self.jobs@.len() - i,
        {
            i += 1;
        }
        if i == self.jobs.len() {
            proof {
                if exists|j: int| first_job(old(self).jobs@, job_id, j) {
                    let j = choose|j: int| first_job(old(self).jobs@, job_id, j);
                    assert(self.jobs@[j].id != job_id);
                }
            }
            return;
        }
        proof {
            assert(first_job(old(self).jobs@, job_id, i as int));
            assert forall|j: int| first_job(old(self).jobs@, job_id, j) implies j == i by {
                if j < i {
                    assert(self.jobs@[j].id != job_id);
                }
                if j > i {
                    assert(old(self).jobs@[i as int].id == job_id);
                }
            }
        }
        let ghost before = self.jobs@[i as int].view();
        self.jobs[i].status = status;
        if let Some(value) = processed {
            self.jobs[i].items_processed = value;
        }
        if let Some(value) = total {
            self.jobs[i].items_total = value;
        }
        let ends = match status {
            JobStatus::Completed | JobStatus::PartialSuccess | JobStatus::Failed
            | JobStatus::Cancelled => true,
            _ => false,
        };
        if ends {
            self.jobs[i].completed_at = Some(now_ms);
        }
        if let Some(err) = error {
            let ghost fs = self.jobs@[i as int].failures@;
            self.jobs[i].failures.push(JobFailure { file_path: String::new(), error: err, line: None });
            proof {
                assert(self.jobs@[i as int].failures@.drop_last() =~= fs);
            }
        }
    }

    /// Adds a running scan of a directory at the front of the list at
    /// `now_ms`, then trims the list; the job's id is that time.
    pub fn add_scan_job_at(&mut self, directory_path: &str, now_ms: i64) -> (r: i64)
        ensures
            r == now_ms,
            exists|j: JobView|
                is_scan_job(j, directory_path@, now_ms) && jobs_view(final(self).jobs@) == trimmed(
                    seq![j] + jobs_view(old(self).jobs@),
                ),
            final(self).same_but_jobs(old(self)),
    {
        let job = JobInfo {
            id: now_ms,
            file_id: None,
            job_type: JobType::Scan,
            origin: JobOrigin::Ephemeral,
            name: owned("scan"),
            version: None,
            status: JobStatus::Running,
            started_at: now_ms,
            completed_at: None,
            pipeline_run_id: None,
            logical_date: None,
            selection_snapshot_hash: None,
            quarantine_rows: None,
            items_total: 0,
            items_processed: 0,
            items_failed: 0,
            output_path: Some(owned(directory_path)),
            output_size_bytes: None,
            backtest: None,
            failures: Vec::new(),
            violations: Vec::new(),
            top_violations_loaded: false,
            selected_violation_index: 0,
        };
        proof {
            reveal_strlit("scan");
            assert(is_scan_job(job.view(), directory_path@, now_ms));
        }
        self.push_job(job);
        now_ms
    }

    /// Adds a running scan of a directory, stamped with the current time
    /// (which also names it).
    pub fn add_scan_job(&mut self, directory_path: &str) -> (r: i64)
        ensures
            exists|j: JobView|
                is_scan_job(j, directory_path@, r) && jobs_view(final(self).jobs@) == trimmed(
                    seq![j] + jobs_view(old(self).jobs@),
                ),
            final(self).same_but_jobs(old(self)),
    {
        let now = crate::clock::now_millis();
        self.add_scan_job_at(directory_path, now)
    }
}

/// The name of a schema evaluation job of this mode.
pub open spec fn schema_eval_name(mode: SchemaEvalMode) -> Seq<char> {
    match mode {
        SchemaEvalMode::Sample => "schema-sample"@,
        SchemaEvalMode::Full => "schema-full"@,
    }
}

/// The running schema evaluation job over `paths_total` paths (the count
/// kept as a `u32`, wrapping as a cast does), started at `now_ms` and
/// named by that time.
pub open spec fn is_schema_eval_job(j: JobView, mode: SchemaEvalMode, paths_total: usize, now_ms: i64) -> bool {
    &&& j.id == now_ms
    &&& j.file_id is None
    &&& j.job_type == JobType::SchemaEval
    &&& j.origin == JobOrigin::Ephemeral
    &&& j.name@ == schema_eval_name(mode)
    &&& j.version is None
    &&& j.status == JobStatus::Running
    &&& j.started_at == now_ms
    &&& j.completed_at is None
    &&& j.pipeline_run_id is None
    &&& j.logical_date is None
    &&& j.selection_snapshot_hash is None
    &&& j.quarantine_rows is None
    &&& j.items_total == paths_total as u32
    &&& j.items_processed == 0
    &&& j.items_failed == 0
    &&& j.output_path is None
    &&& j.output_size_bytes is None
    &&& j.backtest is None
    &&& j.failures.len() == 0
    &&& j.violations.len() == 0
    &&& !j.top_violations_loaded
    &&& j.selected_violation_index == 0
}

impl JobsState {
    /// Adds a running schema evaluation at the front of the list at
    /// `now_ms`, then trims the list; the job's id is that time.
    pub fn add_schema_eval_job_at(&mut self, mode: SchemaEvalMode, paths_total: usize, now_ms: i64) -> (r: i64)
        ensures
            r == now_ms,
            exists|j: JobView|
                is_schema_eval_job(j, mode, paths_total, now_ms) && jobs_view(final(self).jobs@)
                    == trimmed(seq![j] + jobs_view(old(self).jobs@)),
            final(self).same_but_jobs(old(self)),
    {
        let name = match mode {
            SchemaEvalMode::Sample => owned("schema-sample"),
            SchemaEvalMode::Full => owned("schema-full"),
        };
        let job = JobInfo {
            id: now_ms,
            file_id: None,
            job_type: JobType::SchemaEval,
            origin: JobOrigin::Ephemeral,
            name,
            version: None,
            status: JobStatus::Running,
            started_at: now_ms,
            completed_at: None,
            pipeline_run_id: None,
            logical_date: None,
            selection_snapshot_hash: None,
            quarantine_rows: None,
            items_total: paths_total as u32,
            items_processed: 0,
            items_failed: 0,
            output_path: None,
            output_size_bytes: None,
            backtest: None,
            failures: Vec::new(),
            violations: Vec::new(),
            top_violations_loaded: false,
            selected_violation_index: 0,
        };
        proof {
            assert(is_schema_eval_job(job.view(), mode, paths_total, now_ms));
        }
        self.push_job(job);
        now_ms
    }

    /// Adds a running schema evaluation stamped with the current time (which
    /// also names it).
    pub fn add_schema_eval_job(&mut self, mode: SchemaEvalMode, paths_total: usize) -> (r: i64)
        ensures
            exists|j: JobView|
                is_schema_eval_job(j, mode, paths_total, r) && jobs_view(final(self).jobs@)
                    == trimmed(seq![j] + jobs_view(old(self).jobs@)),
            final(self).same_but_jobs(old(self)),
    {
        let now = now_millis();
        self.add_schema_eval_job_at(mode, paths_total, now)
    }

    /// Records progress of a schema evaluation: its status and processed
    /// count, stamped with the current time (see `update_job_status`).
    pub fn update_schema_eval_job(&mut self, job_id: i64, status: JobStatus, processed: u32, error: Option<String>)
        ensures
            final(self).same_but_jobs(old(self)),
            final(self).jobs@.len() == old(self).jobs@.len(),
            !(exists|i: int| first_job(old(self).jobs@, job_id, i)) ==> final(self).jobs@ == old(
                self,
            ).jobs@,
            forall|i: int|
                first_job(old(self).jobs@, job_id, i) ==> exists|now_ms: i64|
                    #[trigger] updated_job(
                        old(self).jobs@[i].view(),
                        final(self).jobs@[i].view(),
                        status,
                        opt_string_view(error),
                        Some(processed),
                        None,
                        now_ms,
                    ) && forall|k: int|
                        0 <= k < old(self).jobs@.len() && k != i ==> final(self).jobs@[k] == old(
                            self,
                        ).jobs@[k],
    {
        let now = now_millis();
        self.update_job_status(job_id, status, error, Some(processed), None, now);
    }

    /// Sets the path count of a schema evaluation once: only while the first
    /// job with this id has a count of 0.
    pub fn set_schema_eval_job_total(&mut self, job_id: i64, total: u32)
        ensures
            final(self).same_but_jobs(old(self)),
            final(self).jobs@.len() == old(self).jobs@.len(),
            forall|k: int|
                0 <= k < old(self).jobs@.len() && !first_job(old(self).jobs@, job_id, k)
                    ==> final(self).jobs@[k] == old(self).jobs@[k],
            forall|i: int|
                first_job(old(self).jobs@, job_id, i) ==> final(self).jobs@[i].view() == (JobView {
                    items_total: if old(self).jobs@[i].items_total == 0 {
                        total
                    } else {
                        old(self).jobs@[i].items_total
                    },
                    ..old(self).jobs@[i].view()
                }),
    {
        let mut i: usize = 0;
        while i < self.jobs.len() && self.jobs[i].id != job_id
            invariant
                i <= self.jobs@.len(),
                self.jobs@ == old(self).jobs@,
                forall|k: int| 0 <= k < i ==> self.jobs@[k].id != job_id,
            decreases self.jobs@.len() - i,
        {
            i += 1;
        }
        if i < self.jobs.len() {
            proof {
                assert(first_job(old(self).jobs@, job_id, i as int));
                assert forall|j: int| first_job(old(self).jobs@, job_id, j) implies j == i by {
                    if j < i {
                        assert(self.jobs@[j].id != job_id);
                    }
                    if j > i {
                        assert(old(self).jobs@[i as int].id == job_id);
                    }
                }
            }
            if self.jobs[i].items_total == 0 {
                self.jobs[i].items_total = total;
            }
        }
    }
}

/// A job as the control service reports it, by its parts.
#[derive(Debug, Clone)]
pub struct ControlJob {
    pub id: u64,
    /// 0 when the job has no file
    pub file_id: i64,
    pub status: JobStatus,
    pub plugin_name: String,
    pub parser_version: Option<String>,
    pub pipeline_run_id: Option<String>,
    pub quarantine_rows: i64,
    pub error_message: Option<String>,
}

/// The list's record of a reported job: a persistent parse job named by
/// its plugin, started when created (else `now_ms`), finished when last
/// updated if its status ends it, with its error as its one failure.
pub open spec fn control_job_ok(
    c: ControlJob,
    started_ms: Option<i64>,
    updated_ms: Option<i64>,
    now_ms: i64,
    j: JobView,
) -> bool {
    &&& j.id == c.id as i64
    &&& j.file_id == (if c.file_id == 0 {
        None
    } else {
        Some(c.file_id)
    })
    &&& j.job_type == JobType::Parse
    &&& j.origin == JobOrigin::Persistent
    &&& j.name == c.plugin_name
    &&& j.version == c.parser_version
    &&& j.status == c.status
    &&& j.started_at == (match started_ms {
        Some(t) => t,
        None => now_ms,
    })
    &&& j.completed_at == (if is_final(c.status) {
        updated_ms
    } else {
        None
    })
    &&& j.pipeline_run_id == c.pipeline_run_id
    &&& j.logical_date is None
    &&& j.selection_snapshot_hash is None
    &&& j.quarantine_rows == Some(c.quarantine_rows)
    &&& j.items_total == 0 && j.items_processed == 0 && j.items_failed == 0
    &&& j.output_path is None
    &&& j.output_size_bytes is None
    &&& j.backtest is None
    &&& match c.error_message {
        Some(e) => j.failures.len() == 1 && j.failures[0].file_path@ == Seq::<char>::empty()
            && j.failures[0].error == e && j.failures[0].line is None,
        None => j.failures.len() == 0,
    }
    &&& j.violations.len() == 0
    &&& !j.top_violations_loaded
    &&& j.selected_violation_index == 0
}

/// An optional RFC 3339 stamp read as milliseconds (`None` when absent or
/// unreadable).
pub open spec fn read_stamp(t: Option<&str>) -> Option<i64> {
    match t {
        Some(s) => rfc3339_millis(s@),
        None => None,
    }
}

impl JobInfo {
    /// The list's record of a reported job, its times read already (see
    /// `control_job_ok`).
    pub fn from_control_at(c: ControlJob, started_ms: Option<i64>, updated_ms: Option<i64>, now_ms: i64) -> (r: JobInfo)
        requires
            c.id <= i64::MAX,
        ensures
            control_job_ok(c, started_ms, updated_ms, now_ms, r.view()),
    {
        let ghost cv = c;
        let ends = match c.status {
            JobStatus::Completed | JobStatus::PartialSuccess | JobStatus::Failed
            | JobStatus::Cancelled => true,
            _ => false,
        };
        let failures = match c.error_message {
            Some(err) => vec![JobFailure { file_path: String::new(), error: err, line: None }],
            None => Vec::new(),
        };
        JobInfo {
            id: c.id as i64,
            file_id: if c.file_id == 0 {
                None
            } else {
                Some(c.file_id)
            },
            job_type: JobType::Parse,
            origin: JobOrigin::Persistent,
            name: c.plugin_name,
            version: c.parser_version,
            status: c.status,
            started_at: match started_ms {
                Some(t) => t,
                None => now_ms,
            },
            completed_at: if ends {
                updated_ms
            } else {
                None
            },
            pipeline_run_id: c.pipeline_run_id,
            logical_date: None,
            selection_snapshot_hash: None,
            quarantine_rows: Some(c.quarantine_rows),
            items_total: 0,
            items_processed: 0,
            items_failed: 0,
            output_path: None,
            output_size_bytes: None,
            backtest: None,
            failures,
            violations: Vec::new(),
            top_violations_loaded: false,
            selected_violation_index: 0,
        }
    }

    /// The list's record of a reported job whose times are RFC 3339 text;
    /// a creation time that does not read is taken as now.
    pub fn from_control(c: ControlJob, created_at: Option<&str>, updated_at: Option<&str>) -> (r: JobInfo)
        requires
            c.id <= i64::MAX,
        ensures
            exists|now_ms: i64|
                #[trigger] control_job_ok(
                    c,
                    read_stamp(created_at),
                    read_stamp(updated_at),
                    now_ms,
                    r.view(),
                ),
    {
        let started = match created_at {
            Some(t) => parse_rfc3339_millis(t),
            None => None,
        };
        let updated = match updated_at {
            Some(t) => parse_rfc3339_millis(t),
            None => None,
        };
        let now = now_millis();
        JobInfo::from_control_at(c, started, updated, now)
    }
}


// ---------------------------------------------------------------------------
// Jobs read from the local processing queue
// ---------------------------------------------------------------------------

/// Where a job's quarantined row count comes from: the queue's own column
/// when it has one, else a count over the quarantine table when there is
/// one, else nowhere. Gives the selected expression and the join it needs.
pub fn quarantine_columns(has_column: bool, has_table: bool) -> (r: (&'static str, &'static str))
    ensures
        has_column ==> r.0@ == "q.quarantine_rows"@ && r.1@ == ""@,
        !has_column && has_table ==> r.0@ == "qc.quarantine_rows"@ && r.1@
            == "LEFT JOIN (SELECT job_id, COUNT(*) AS quarantine_rows FROM cf_quarantine GROUP BY job_id) qc ON qc.job_id = q.id"@,
        !has_column && !has_table ==> r.0@ == "NULL as quarantine_rows"@ && r.1@ == ""@,
{
    if has_column {
        ("q.quarantine_rows", "")
    } else if has_table {
        (
            "qc.quarantine_rows",
            "LEFT JOIN (SELECT job_id, COUNT(*) AS quarantine_rows FROM cf_quarantine GROUP BY job_id) qc ON qc.job_id = q.id",
        )
    } else {
        ("NULL as quarantine_rows", "")
    }
}

/// A row of the local processing queue, its statuses read already.
#[derive(Debug, Clone)]
pub struct QueueJobRow {
    pub id: i64,
    pub file_id: Option<i64>,
    pub plugin_name: String,
    /// The queue state as stored
    pub status_text: String,
    /// The queue state, where it reads as one
    pub queue_status: Option<QueueStatus>,
    /// The outcome recorded at completion, where it reads as one
    pub completion_status: Option<OutcomeStatus>,
    /// The stored queue state read as an outcome
    pub legacy_status: Option<OutcomeStatus>,
    /// Claimed and ended, in milliseconds since the Unix epoch
    pub claim_time: Option<i64>,
    pub end_time: Option<i64>,
    pub has_result_summary: bool,
    pub error_message: Option<String>,
    pub pipeline_run_id: Option<String>,
    pub logical_date: Option<String>,
    pub selection_snapshot_hash: Option<String>,
    pub quarantine_rows: Option<i64>,
}

/// The list's record of a queue row: a persistent parse job named by its
/// plugin, in the UI status of its stored states, started when claimed
/// (else `now_ms`), ended when it ended, with one item processed when it
/// has a result summary and one failed (its error as the failure) when it
/// has an error.
pub open spec fn queue_row_ok(
    row: QueueJobRow,
    started_ms: Option<i64>,
    ended_ms: Option<i64>,
    now_ms: i64,
    j: JobView,
) -> bool {
    &&& j.id == row.id
    &&& j.file_id == row.file_id
    &&& j.job_type == JobType::Parse
    &&& j.origin == JobOrigin::Persistent
    &&& j.name == row.plugin_name
    &&& j.version is None
    &&& j.status == ui_status(row.status_text@, row.queue_status, row.completion_status, row.legacy_status)
    &&& j.started_at == (match started_ms {
        Some(t) => t,
        None => now_ms,
    })
    &&& j.completed_at == ended_ms
    &&& j.pipeline_run_id == row.pipeline_run_id
    &&& j.logical_date == row.logical_date
    &&& j.selection_snapshot_hash == row.selection_snapshot_hash
    &&& j.quarantine_rows == row.quarantine_rows
    &&& j.items_total == 0
    &&& j.items_processed == (if row.has_result_summary { 1u32 } else { 0u32 })
    &&& j.items_failed == (if row.error_message is Some { 1u32 } else { 0u32 })
    &&& j.output_path is None
    &&& j.output_size_bytes is None
    &&& j.backtest is None
    &&& match row.error_message {
        Some(e) => j.failures.len() == 1 && j.failures[0].file_path@ == Seq::<char>::empty()
            && j.failures[0].error == e && j.failures[0].line is None,
        None => j.failures.len() == 0,
    }
    &&& j.violations.len() == 0
    &&& !j.top_violations_loaded
    &&& j.selected_violation_index == 0
}

/// Milliseconds since the Unix epoch that lie well within chrono's date
/// range (about 253,000 years either way; chrono's own reaches about
/// 262,000 years from the common era).
pub open spec fn in_chrono_range(ms: i64) -> bool {
    -8_000_000_000_000_000 <= ms <= 8_000_000_000_000_000
}

/// How a stored time is read: the instant read back when chrono could read
/// it, nothing when there was none.
pub open spec fn read_time(stored: Option<i64>, read: Option<i64>) -> bool {
    match stored {
        Some(t) => (read is None || read == Some(t)) && (in_chrono_range(t) ==> read == Some(t)),
        None => read is None,
    }
}

/// `chrono::Local::timestamp_millis_opt(ms).single()`, read back with
/// `DateTime::timestamp_millis`: chrono gives a single local time whenever
/// `DateTime::from_timestamp_millis(ms)` is in its date range, and reading
/// it back gives `ms`; so the result is `ms` within `in_chrono_range`, and
/// otherwise either `ms` or nothing (chrono's exact bounds are not
/// restated).
#[verifier::external_body]
fn local_millis(ms: i64) -> (r: Option<i64>)
    ensures
        r matches Some(v) ==> v == ms,
        in_chrono_range(ms) ==> r == Some(ms),
{
    match chrono::TimeZone::timestamp_millis_opt(&chrono::Local, ms).single() {
        Some(d) => Some(d.timestamp_millis()),
        None => None,
    }
}

impl JobInfo {
    /// The list's record of a queue row, its times checked already (see
    /// `queue_row_ok`).
    pub fn from_queue_row_at(row: QueueJobRow, started_ms: Option<i64>, ended_ms: Option<i64>, now_ms: i64) -> (r: JobInfo)
        ensures
            queue_row_ok(row, started_ms, ended_ms, now_ms, r.view()),
    {
        let ghost rv = row;
        let status = JobStatus::from_db_status(
            row.status_text.as_str(),
            row.queue_status,
            row.completion_status,
            row.legacy_status,
        );
        let items_failed: u32 = if row.error_message.is_some() {
            1
        } else {
            0
        };
        let failures = match row.error_message {
            Some(err) => vec![JobFailure { file_path: String::new(), error: err, line: None }],
            None => Vec::new(),
        };
        JobInfo {
            id: row.id,
            file_id: row.file_id,
            job_type: JobType::Parse,
            origin: JobOrigin::Persistent,
            name: row.plugin_name,
            version: None,
            status,
            started_at: match started_ms {
                Some(t) => t,
                None => now_ms,
            },
            completed_at: ended_ms,
            pipeline_run_id: row.pipeline_run_id,
            logical_date: row.logical_date,
            selection_snapshot_hash: row.selection_snapshot_hash,
            quarantine_rows: row.quarantine_rows,
            items_total: 0,
            items_processed: if row.has_result_summary {
                1
            } else {
                0
            },
            items_failed,
            output_path: None,
            output_size_bytes: None,
            backtest: None,
            failures,
            violations: Vec::new(),
            top_violations_loaded: false,
            selected_violation_index: 0,
        }
    }

    /// The list's record of a queue row, its times read as local times (see
    /// `read_time`): a claim time that chrono cannot read is taken as now,
    /// an end time that it cannot read is dropped.
    pub fn from_queue_row(row: QueueJobRow) -> (r: JobInfo)
        ensures
            exists|started: Option<i64>, ended: Option<i64>, now_ms: i64|
                read_time(row.claim_time, started) && read_time(row.end_time, ended)
                    && #[trigger] queue_row_ok(row, started, ended, now_ms, r.view()),
    {
        let started = match row.claim_time {
            Some(t) => local_millis(t),
            None => None,
        };
        let ended = match row.end_time {
            Some(t) => local_millis(t),
            None => None,
        };
        let now = now_millis();
        JobInfo::from_queue_row_at(row, started, ended, now)
    }
}

} // verus!

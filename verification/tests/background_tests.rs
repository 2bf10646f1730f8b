use casparian_tui::approvals::{ApprovalDisplayStatus, ApprovalInfo, ApprovalOperationType, ApprovalsState};
use casparian_tui::background::{
    distinct_sorted_tags, has_active_jobs, jobs_poll_interval_ms, should_load_jobs,
    FilesPageOutcome,
};
use casparian_tui::discover::{DiscoverViewState, RuleId, RuleInfo, ScanProgress, SourceInfo, TagInfo};
use casparian_tui::background::{connection_change_status, control_probe_due};
use casparian_tui::job_updates::quarantine_columns;
use casparian_tui::background::{scan_conflict_message, ScanConflict};
use casparian_tui::discover_state::{DiscoverState, FileInfo};
use casparian_tui::jobs::{JobInfo, JobStatus};
use casparian_tui::query::{QueryResults, QueryState, QueryViewState};
use casparian_tui::sessions::{SessionInfo, SessionsState};
use casparian_tui::tabs::{CatalogState, CatalogTab, PipelineRunInfo, TriageState, TriageTab, TuiMode};

fn source(id: i64, path: &str) -> SourceInfo {
    SourceInfo { id, name: path.to_string(), path: path.to_string(), file_count: 0 }
}

fn file(rel: &str, tags: &[&str]) -> FileInfo {
    FileInfo {
        file_id: 1,
        path: format!("/root/{}", rel),
        rel_path: rel.to_string(),
        size: 10,
        modified: 0,
        is_dir: false,
        tags: tags.iter().map(|t| t.to_string()).collect(),
    }
}

#[test]
fn loaded_sources_select_pending_path() {
    let mut d = DiscoverState::default();
    d.pending_select_source_path = Some("/data/b".to_string());
    d.apply_loaded_sources(vec![source(1, "/data/a"), source(2, "/data/b")], true);
    assert!(d.sources_loaded);
    assert_eq!(d.selected_source_id, Some(2));
    assert!(!d.data_loaded);
    assert!(d.pending_select_source_path.is_none());
    assert_eq!(d.view_state, DiscoverViewState::Files);
}

#[test]
fn loaded_sources_report_missing_path() {
    let mut d = DiscoverState::default();
    d.pending_select_source_path = Some("/data/zz".to_string());
    d.apply_loaded_sources(vec![source(1, "/data/a")], false);
    assert_eq!(d.selected_source_id, Some(1));
    assert_eq!(
        d.status_message,
        Some(("Scan completed but source was not found".to_string(), true))
    );
}

#[test]
fn no_sources_open_the_dropdown() {
    let mut d = DiscoverState::default();
    d.view_state = DiscoverViewState::RuleBuilder;
    d.sources_filter = "abc".to_string();
    d.apply_loaded_sources(Vec::new(), true);
    assert_eq!(d.view_state, DiscoverViewState::SourcesDropdown);
    assert_eq!(d.previous_view_state, Some(DiscoverViewState::RuleBuilder));
    assert_eq!(d.sources_filter, "");
    assert_eq!(d.preview_source, Some(0));
}

fn session(id: &str) -> SessionInfo {
    SessionInfo {
        id: id.to_string(),
        intent: "x".to_string(),
        state_label: "s".to_string(),
        created_at: 0,
        file_count: 0,
        pending_gate: None,
    }
}

#[test]
fn loaded_sessions_select_pending() {
    let mut s = SessionsState::default();
    s.selected_index = 7;
    s.pending_select_session_id = Some("b".to_string());
    s.apply_loaded_sessions(vec![session("a"), session("b"), session("c")]);
    assert_eq!(s.selected_index, 1);
    assert!(s.sessions_loaded);
    let mut t = SessionsState::default();
    t.selected_index = 7;
    t.apply_loaded_sessions(vec![session("a"), session("b")]);
    assert_eq!(t.selected_index, 1);
}

#[test]
fn loaded_approvals_clamp() {
    let mut a = ApprovalsState::default();
    a.selected_index = 5;
    a.apply_loaded_approvals(vec![ApprovalInfo {
        id: "a1".to_string(),
        operation_type: ApprovalOperationType::Run,
        plugin_ref: "p".to_string(),
        summary: "s".to_string(),
        status: ApprovalDisplayStatus::Pending,
        created_at: 0,
        expires_at: 0,
        file_count: None,
        input_dir: None,
        job_id: None,
    }]);
    assert!(a.approvals_loaded);
    assert_eq!(a.selected_index, 0);
}

#[test]
fn triage_and_catalog_loads() {
    let mut t = TriageState {
        tab: TriageTab::Quarantine,
        quarantine_rows: None,
        schema_mismatches: None,
        dead_letters: None,
        selected_index: 3,
        previous_mode: None,
        job_filter: None,
        loaded: false,
        copied_buffer: None,
        status_message: None,
    };
    t.apply_loaded(Some(Vec::new()), None, None);
    assert!(t.loaded);
    assert_eq!(t.selected_index, 0);
    t.apply_load_error("boom".to_string());
    assert_eq!(t.status_message.as_deref(), Some("boom"));

    let run = |id: &str| PipelineRunInfo {
        id: id.to_string(),
        pipeline_id: "p".to_string(),
        pipeline_name: None,
        pipeline_version: None,
        logical_date: "d".to_string(),
        status: "ok".to_string(),
        selection_snapshot_hash: None,
        started_at: None,
        completed_at: None,
    };
    let mut c = CatalogState {
        tab: CatalogTab::Pipelines,
        pipelines: None,
        runs: None,
        selected_index: 0,
        previous_mode: None,
        pending_select_run_id: Some("r2".to_string()),
        loaded: false,
        status_message: None,
    };
    c.apply_loaded(Some(Vec::new()), Some(vec![run("r1"), run("r2")]));
    assert_eq!(c.tab, CatalogTab::Runs);
    assert_eq!(c.selected_index, 1);
    assert!(c.pending_select_run_id.is_none());
}

#[test]
fn jobs_polling() {
    assert_eq!(jobs_poll_interval_ms(TuiMode::Run, false), 2000);
    assert_eq!(jobs_poll_interval_ms(TuiMode::Home, true), 2000);
    assert_eq!(jobs_poll_interval_ms(TuiMode::Query, true), 10000);
    assert_eq!(jobs_poll_interval_ms(TuiMode::Query, false), 0);
    assert!(should_load_jobs(false, 0, None));
    assert!(should_load_jobs(true, 2000, None));
    assert!(should_load_jobs(true, 2000, Some(2500)));
    assert!(!should_load_jobs(true, 2000, Some(100)));
    assert!(!should_load_jobs(true, 0, Some(99999)));
    let mut job = JobInfo::new_at(0);
    job.status = JobStatus::Completed;
    assert!(!has_active_jobs(&vec![job.clone()]));
    job.status = JobStatus::Running;
    assert!(has_active_jobs(&vec![job]));
}

#[test]
fn files_page_handling() {
    let mut d = DiscoverState::default();
    d.selected_source_id = Some(4);
    d.page_size = 10;
    d.page_offset = 0;
    assert_eq!(d.apply_files_page(true, 5, 0, 3, Vec::new()), FilesPageOutcome::Stale);
    assert_eq!(d.apply_files_page(false, 4, 0, 3, Vec::new()), FilesPageOutcome::Stale);
    let files = vec![file("a.csv", &["sales", "q1"]), file("b.csv", &["q1", "archive"])];
    assert_eq!(d.apply_files_page(true, 4, 0, 2, files), FilesPageOutcome::Applied);
    assert_eq!(d.available_tags, vec!["archive", "q1", "sales"]);
    assert!(d.data_loaded && d.db_filtered);
    assert_eq!(d.total_files, 2);
    d.page_offset = 30;
    assert_eq!(d.apply_files_page(true, 4, 30, 25, Vec::new()), FilesPageOutcome::Repositioned);
    assert_eq!(d.page_offset, 20);
    assert!(!d.data_loaded);
    assert_eq!(distinct_sorted_tags(&vec![file("x", &[]), file("y", &["b", "a", "b"])]), vec!["a", "b"]);
}

#[test]
fn tags_and_rules_written() {
    let mut d = DiscoverState::default();
    d.selected_source_id = Some(1);
    assert!(!d.apply_loaded_tags(true, 2, Vec::new(), Vec::new()));
    d.selected_tag = Some(3);
    let tag = |n: &str| TagInfo { name: n.to_string(), count: 1, is_special: false };
    assert!(d.apply_loaded_tags(true, 1, vec![tag("a"), tag("b")], vec!["a".to_string(), "b".to_string()]));
    assert_eq!(d.selected_tag, None);

    d.files = vec![file("a.csv", &["x"]), file("b.csv", &[]), file("c.csv", &["new"])];
    d.available_tags = vec!["x".to_string()];
    d.apply_tags_added(&vec!["a.csv".to_string(), "c.csv".to_string()], "new".to_string(), 2);
    assert_eq!(d.files[0].tags, vec!["x", "new"]);
    assert!(d.files[1].tags.is_empty());
    assert_eq!(d.files[2].tags, vec!["new"]);
    assert_eq!(d.available_tags, vec!["new", "x"]);
    assert_eq!(d.status_message, Some(("Tagged 2 files with 'new'".to_string(), false)));

    d.apply_rule_created(9, "**/*.csv".to_string(), "csv".to_string(), 12);
    assert_eq!(d.rules.len(), 1);
    assert_eq!(d.rules[0].priority, 100);
    d.apply_rule_created(9, "**/*.csv".to_string(), "csv".to_string(), 12);
    assert_eq!(d.rules.len(), 1);
    assert_eq!(
        d.status_message,
        Some(("Created rule: **/*.csv \u{2192} csv (12 files tagged)".to_string(), false))
    );
}

#[test]
fn scan_messages() {
    let mut d = DiscoverState::default();
    d.apply_scan_started(42);
    assert_eq!(
        d.status_message,
        Some(("Scan started (Job #42) - press [2] to view Jobs".to_string(), false))
    );
    d.apply_scan_progress(ScanProgress {
        dirs_scanned: 1,
        files_found: 2,
        files_persisted: 2,
        current_dir: None,
        elapsed_ms: 5,
        files_per_sec_milli: 0,
        stalled: false,
    });
    assert!(d.scan_progress.is_some());
    d.page_offset = 40;
    d.apply_scan_complete("/data/logs/".to_string(), 1234);
    assert_eq!(d.status_message, Some(("Scanned 1234 files from logs".to_string(), false)));
    assert_eq!(d.pending_select_source_path.as_deref(), Some("/data/logs/"));
    assert_eq!(d.page_offset, 0);
    assert_eq!(d.view_state, DiscoverViewState::RuleBuilder);
    assert!(d.scan_progress.is_none());
    d.apply_scan_complete("/".to_string(), 0);
    assert_eq!(d.status_message, Some(("Scanned 0 files from /".to_string(), false)));
    d.apply_scan_failed("denied".to_string());
    assert_eq!(d.scan_error.as_deref(), Some("denied"));
    assert_eq!(d.view_state, DiscoverViewState::Files);
    d.view_state = DiscoverViewState::Scanning;
    d.apply_scan_lost();
    assert_eq!(d.scan_error.as_deref(), Some("Scan task ended unexpectedly"));
    assert_eq!(d.view_state, DiscoverViewState::Files);
}

#[test]
fn query_results_applied() {
    let mut q = QueryState::default();
    q.view_state = QueryViewState::Executing;
    q.executing = true;
    let res = QueryResults {
        columns: vec!["a".to_string()],
        rows: Vec::new(),
        row_count: 0,
        truncated: false,
        selected_row: 0,
        scroll_x: 0,
    };
    q.apply_query_result("  select 1 ", 15, Ok(res));
    assert!(!q.executing);
    assert_eq!(q.execution_time_ms, Some(15));
    assert_eq!(q.view_state, QueryViewState::ViewingResults);
    assert_eq!(q.history, vec!["select 1"]);
    q.view_state = QueryViewState::Executing;
    q.apply_query_result("bad", 3, Err("syntax".to_string()));
    assert_eq!(q.view_state, QueryViewState::Editing);
    assert_eq!(q.error.as_deref(), Some("syntax"));
    assert_eq!(q.history.len(), 1);
    q.view_state = QueryViewState::Executing;
    q.apply_query_lost();
    assert_eq!(q.error.as_deref(), Some("Query task ended unexpectedly"));
}

fn control_job(status: JobStatus, error: Option<&str>) -> casparian_tui::job_updates::ControlJob {
    casparian_tui::job_updates::ControlJob {
        id: 42,
        file_id: 0,
        status,
        plugin_name: "csv_parser".to_string(),
        parser_version: Some("1.2.0".to_string()),
        pipeline_run_id: None,
        quarantine_rows: 3,
        error_message: error.map(|e| e.to_string()),
    }
}

#[test]
fn reported_job_that_ended_carries_its_times_and_error() {
    let j = JobInfo::from_control_at(
        control_job(JobStatus::Failed, Some("bad row")),
        Some(1_000),
        Some(5_000),
        9_999,
    );
    assert_eq!(j.id, 42);
    assert_eq!(j.file_id, None);
    assert_eq!(j.name, "csv_parser");
    assert_eq!(j.version.as_deref(), Some("1.2.0"));
    assert_eq!(j.started_at, 1_000);
    assert_eq!(j.completed_at, Some(5_000));
    assert_eq!(j.quarantine_rows, Some(3));
    assert_eq!(j.failures.len(), 1);
    assert_eq!(j.failures[0].error, "bad row");
    assert_eq!(j.failures[0].file_path, "");
}

#[test]
fn reported_running_job_has_no_end_and_starts_now_without_a_start() {
    let j = JobInfo::from_control_at(control_job(JobStatus::Running, None), None, Some(5_000), 9_999);
    assert_eq!(j.started_at, 9_999);
    assert_eq!(j.completed_at, None);
    assert!(j.failures.is_empty());
}

#[test]
fn reported_job_reads_rfc3339_stamps() {
    let j = JobInfo::from_control(
        control_job(JobStatus::Completed, None),
        Some("2024-01-02T03:04:05Z"),
        Some("2024-01-02T03:04:06.500Z"),
    );
    assert_eq!(j.started_at, 1_704_164_645_000);
    assert_eq!(j.completed_at, Some(1_704_164_646_500));
    let k = JobInfo::from_control(control_job(JobStatus::Completed, None), None, Some("not a time"));
    assert_eq!(k.completed_at, None);
    assert!(k.started_at > 1_704_164_645_000);
}

#[test]
fn control_probe_spacing_and_messages() {
    assert!(control_probe_due(None));
    assert!(!control_probe_due(Some(1999)));
    assert!(control_probe_due(Some(2000)));
    assert_eq!(connection_change_status(true, true), None);
    assert_eq!(connection_change_status(false, true), Some(("Sentinel connected", false)));
    assert_eq!(connection_change_status(true, false), Some(("Sentinel not reachable", true)));
}

#[test]
fn loaded_rules_keep_a_valid_selection() {
    let rule = |p: &str| RuleInfo { id: RuleId(Some(1)), pattern: p.to_string(), tag: "t".to_string(), priority: 100, enabled: true };
    let mut d = DiscoverState::default();
    d.selected_rule = 5;
    d.apply_loaded_rules(vec![rule("a"), rule("b")]);
    assert_eq!(d.rules.len(), 2);
    assert_eq!(d.selected_rule, 0);
    d.selected_rule = 1;
    d.apply_loaded_rules(vec![]);
    assert_eq!(d.selected_rule, 1);
    d.apply_rules_load_error("timeout");
    assert_eq!(d.status_message, Some(("Rules load failed: timeout".to_string(), true)));
}

fn queue_row(error: Option<&str>) -> casparian_tui::job_updates::QueueJobRow {
    casparian_tui::job_updates::QueueJobRow {
        id: 11,
        file_id: Some(3),
        plugin_name: "csv_parser".to_string(),
        status_text: "COMPLETED".to_string(),
        queue_status: Some(casparian_tui::jobs::QueueStatus::Completed),
        completion_status: Some(casparian_tui::jobs::OutcomeStatus::PartialSuccess),
        legacy_status: None,
        claim_time: Some(1_700_000_000_000),
        end_time: Some(1_700_000_005_000),
        has_result_summary: true,
        error_message: error.map(|e| e.to_string()),
        pipeline_run_id: Some("run-1".to_string()),
        logical_date: Some("2024-01-01".to_string()),
        selection_snapshot_hash: None,
        quarantine_rows: Some(2),
    }
}

#[test]
fn queue_rows_become_parse_jobs() {
    let j = JobInfo::from_queue_row(queue_row(Some("bad row")));
    assert_eq!(j.id, 11);
    assert_eq!(j.file_id, Some(3));
    assert_eq!(j.status, JobStatus::PartialSuccess);
    assert_eq!(j.started_at, 1_700_000_000_000);
    assert_eq!(j.completed_at, Some(1_700_000_005_000));
    assert_eq!(j.items_processed, 1);
    assert_eq!(j.items_failed, 1);
    assert_eq!(j.failures[0].error, "bad row");
    assert_eq!(j.quarantine_rows, Some(2));
    assert_eq!(j.pipeline_run_id.as_deref(), Some("run-1"));
    let k = JobInfo::from_queue_row_at(queue_row(None), None, None, 42);
    assert_eq!(k.started_at, 42);
    assert_eq!(k.completed_at, None);
    assert_eq!(k.items_failed, 0);
    assert!(k.failures.is_empty());
}

#[test]
fn quarantine_count_source() {
    assert_eq!(quarantine_columns(true, true), ("q.quarantine_rows", ""));
    assert_eq!(quarantine_columns(false, false), ("NULL as quarantine_rows", ""));
    let (select, join) = quarantine_columns(false, true);
    assert_eq!(select, "qc.quarantine_rows");
    assert!(join.starts_with("LEFT JOIN (SELECT job_id, COUNT(*) AS quarantine_rows FROM cf_quarantine"));
}

#[test]
fn refused_scans_say_why() {
    let taken = ScanConflict::NameTaken { name: "logs".to_string(), existing_path: "/var/logs".to_string() };
    assert_eq!(
        scan_conflict_message(&taken),
        "A source named 'logs' already exists at '/var/logs'. Use Sources Manager (M) to rename or delete it first."
    );
    let child = ScanConflict::ChildOfExisting { error: "inside 'data'".to_string(), existing_name: "data".to_string() };
    assert_eq!(
        scan_conflict_message(&child),
        "inside 'data'\n\nSuggestion: Either delete source 'data' first, or use tagging rules to organize files within that source."
    );
    let parent = ScanConflict::ParentOfExisting { error: "holds 'x'".to_string(), existing_name: "x".to_string() };
    assert!(scan_conflict_message(&parent).ends_with("or scan a non-overlapping directory."));
    assert_eq!(scan_conflict_message(&ScanConflict::Other { error: "e".to_string() }), "e\n\nSuggestion: ");
    let mut d = DiscoverState::default();
    d.refuse_scan_without_workspace();
    assert_eq!(d.status_message, Some(("No workspace available; cannot scan.".to_string(), true)));
    let router = casparian_tui::backend::BackendRouter::new(None, false, true);
    let m = d.refuse_blocked_scan(&router);
    assert_eq!(m, "Database is read-only; cannot start scan");
    assert_eq!(d.scan_error.as_deref(), Some("Database is read-only; cannot start scan"));
}

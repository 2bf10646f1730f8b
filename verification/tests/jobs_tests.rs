use casparian_tui::jobs::{
    BacktestInfo, JobFailure, JobInfo, JobOrigin, JobStatus, JobType, JobsListSection, MAX_JOBS,
};
use casparian_tui::jobs_state::JobsState;

const NOW_MS: i64 = 1_700_000_000_000;

fn job(id: i64, status: JobStatus, started_at: i64) -> JobInfo {
    let mut j = JobInfo::new_at(started_at);
    j.id = id;
    j.status = status;
    j
}

fn mk_job(id: i64, job_type: JobType, status: JobStatus, origin: JobOrigin) -> JobInfo {
    let mut j = JobInfo::new_at(1_700_000_000_000);
    j.id = id;
    j.job_type = job_type;
    j.origin = origin;
    j.name = "x".to_string();
    j.status = status;
    j
}

fn create_test_jobs() -> Vec<JobInfo> {
    let mut a = job(1, JobStatus::Pending, NOW_MS);
    a.file_id = Some(101);
    a.name = "parser_a".into();
    a.version = Some("1.0.0".into());
    a.items_total = 100;
    a.output_path = Some("/data/output/a.parquet".into());

    let mut b = job(2, JobStatus::Running, NOW_MS + 1);
    b.file_id = Some(102);
    b.name = "parser_b".into();
    b.version = Some("1.0.0".into());
    b.items_total = 100;
    b.items_processed = 50;
    b.output_path = Some("/data/output/b.parquet".into());

    let mut c = job(3, JobStatus::Failed, NOW_MS + 2);
    c.file_id = Some(103);
    c.name = "parser_c".into();
    c.version = Some("1.0.0".into());
    c.completed_at = Some(NOW_MS + 3);
    c.items_total = 100;
    c.items_processed = 30;
    c.items_failed = 5;
    c.output_path = Some("/data/output/c.parquet".into());
    c.failures = vec![JobFailure {
        file_path: "/data/c.csv".into(),
        error: "Parse error".into(),
        line: None,
    }];

    let mut d = job(4, JobStatus::Completed, NOW_MS + 4);
    d.file_id = Some(104);
    d.name = "parser_d".into();
    d.version = Some("1.0.0".into());
    d.completed_at = Some(NOW_MS + 5);
    d.items_total = 100;
    d.items_processed = 100;
    d.output_path = Some("/data/output/d.parquet".into());
    d.output_size_bytes = Some(1024 * 1024);

    vec![a, b, c, d]
}

#[test]
fn test_job_status_symbol() {
    assert_eq!(JobStatus::Pending.symbol(), "○");
    assert_eq!(JobStatus::Running.symbol(), "↻");
    assert_eq!(JobStatus::Completed.symbol(), "✓");
    assert_eq!(JobStatus::PartialSuccess.symbol(), "⚠");
    assert_eq!(JobStatus::Failed.symbol(), "✗");
}

#[test]
fn test_job_status_as_str() {
    assert_eq!(JobStatus::Pending.as_str(), "Pending");
    assert_eq!(JobStatus::Running.as_str(), "Running");
    assert_eq!(JobStatus::Completed.as_str(), "Completed");
    assert_eq!(JobStatus::PartialSuccess.as_str(), "Partial");
    assert_eq!(JobStatus::Failed.as_str(), "Failed");
}

#[test]
fn test_jobs_filtered_jobs() {
    let mut state = JobsState { jobs: create_test_jobs(), ..Default::default() };

    assert_eq!(state.filtered_jobs().len(), 4);

    state.status_filter = Some(JobStatus::Pending);
    assert_eq!(state.filtered_jobs().len(), 1);
    assert_eq!(state.filtered_jobs()[0].id, 1);

    state.status_filter = Some(JobStatus::Failed);
    assert_eq!(state.filtered_jobs().len(), 1);
    assert_eq!(state.filtered_jobs()[0].id, 3);
}

#[test]
fn test_jobs_filter_clamps_selection() {
    let mut state = JobsState { jobs: create_test_jobs(), selected_index: 3, ..Default::default() };

    state.set_filter(Some(JobStatus::Pending));
    assert_eq!(state.selected_index, 0);

    state.jobs = vec![];
    state.selected_index = 5;
    state.clamp_selection();
    assert_eq!(state.selected_index, 0);
}

#[test]
fn test_filter_to_empty_result() {
    let mut state = JobsState { jobs: create_test_jobs(), selected_index: 2, ..Default::default() };

    state.jobs.clear();
    state.set_filter(Some(JobStatus::Pending));
    assert_eq!(state.filtered_jobs().len(), 0);
    assert_eq!(state.selected_index, 0);
}

#[test]
fn local_scan_job_is_not_dropped_by_refresh() {
    let mut state = JobsState::default();

    let scan = mk_job(9_999_999_999_999, JobType::Scan, JobStatus::Running, JobOrigin::Ephemeral);
    state.push_job(scan);

    let loaded = vec![
        mk_job(1, JobType::Parse, JobStatus::Pending, JobOrigin::Persistent),
        mk_job(2, JobType::Parse, JobStatus::Running, JobOrigin::Persistent),
    ];

    state.merge_loaded_jobs(loaded);

    assert!(state.jobs.iter().any(|job| job.job_type == JobType::Scan));
    assert!(state.jobs.iter().any(|job| job.id == 1));
    assert!(state.jobs.iter().any(|job| job.id == 2));
}

#[test]
fn pending_started_at_does_not_jump_forward() {
    let mut state = JobsState::default();
    let mut old = mk_job(1, JobType::Parse, JobStatus::Pending, JobOrigin::Persistent);
    old.started_at = 1_600_000_000_000;
    state.jobs.push(old);

    let mut refreshed = mk_job(1, JobType::Parse, JobStatus::Pending, JobOrigin::Persistent);
    refreshed.started_at = 1_700_000_000_000;

    state.merge_loaded_jobs(vec![refreshed]);

    let after = state.jobs.iter().find(|job| job.id == 1).unwrap();
    assert_eq!(after.started_at, 1_600_000_000_000);
}

#[test]
fn failures_preserved_when_refresh_missing_errors() {
    let mut state = JobsState::default();
    let mut old = mk_job(1, JobType::Parse, JobStatus::Failed, JobOrigin::Persistent);
    old.failures.push(JobFailure {
        file_path: "/tmp/a.csv".to_string(),
        error: "boom".to_string(),
        line: None,
    });
    state.jobs.push(old);

    let refreshed = mk_job(1, JobType::Parse, JobStatus::Failed, JobOrigin::Persistent);
    state.merge_loaded_jobs(vec![refreshed]);

    let after = state.jobs.iter().find(|job| job.id == 1).unwrap();
    assert!(!after.failures.is_empty());
}

#[test]
fn backtest_detail_preserved_when_refresh_missing() {
    let mut state = JobsState::default();
    let mut old = mk_job(2, JobType::Backtest, JobStatus::Completed, JobOrigin::Persistent);
    old.backtest = Some(BacktestInfo { pass_rate_ppm: 900_000, iteration: 1, high_failure_passed: 0 });
    state.jobs.push(old);

    let refreshed = mk_job(2, JobType::Backtest, JobStatus::Completed, JobOrigin::Persistent);
    state.merge_loaded_jobs(vec![refreshed]);

    let after = state.jobs.iter().find(|job| job.id == 2).unwrap();
    assert!(after.backtest.is_some());
}

#[test]
fn persistent_jobs_missing_from_refresh_are_dropped() {
    let mut state = JobsState::default();
    state.jobs.push(mk_job(7, JobType::Parse, JobStatus::Running, JobOrigin::Persistent));
    state.jobs.push(mk_job(8, JobType::Scan, JobStatus::Running, JobOrigin::Ephemeral));
    state.merge_loaded_jobs(vec![mk_job(9, JobType::Parse, JobStatus::Pending, JobOrigin::Persistent)]);
    let ids: Vec<i64> = state.jobs.iter().map(|j| j.id).collect();
    assert_eq!(ids, vec![8, 9]);
}

#[test]
fn merge_unpins_vanished_job_and_clamps_selection() {
    let mut state = JobsState::default();
    state.jobs = create_test_jobs();
    state.pinned_job_id = Some(3);
    state.selected_index = 9;
    state.merge_loaded_jobs(vec![mk_job(1, JobType::Parse, JobStatus::Pending, JobOrigin::Persistent)]);
    assert_eq!(state.pinned_job_id, None);
    assert_eq!(state.selected_index, 0);
    assert_eq!(state.section_focus, JobsListSection::Actionable);
}

#[test]
fn merge_keeps_pinned_job_still_listed() {
    let mut state = JobsState::default();
    state.jobs = create_test_jobs();
    state.pinned_job_id = Some(1);
    state.merge_loaded_jobs(vec![mk_job(1, JobType::Parse, JobStatus::Pending, JobOrigin::Persistent)]);
    assert_eq!(state.pinned_job_id, Some(1));
    assert_eq!(state.selected_job().unwrap().id, 1);
}

#[test]
fn merge_keeps_completion_time_and_violation_state() {
    let mut state = JobsState::default();
    let mut old = mk_job(5, JobType::Backtest, JobStatus::Completed, JobOrigin::Persistent);
    old.completed_at = Some(42);
    old.top_violations_loaded = true;
    old.selected_violation_index = 3;
    state.jobs.push(old);
    let mut fresh = mk_job(5, JobType::Backtest, JobStatus::Completed, JobOrigin::Persistent);
    fresh.top_violations_loaded = false;
    state.merge_loaded_jobs(vec![fresh]);
    assert_eq!(state.jobs[0].completed_at, Some(42));
    assert!(state.jobs[0].top_violations_loaded);
    assert_eq!(state.jobs[0].selected_violation_index, 3);
}

#[test]
fn running_job_start_is_taken_from_refresh() {
    let mut state = JobsState::default();
    let mut old = mk_job(1, JobType::Parse, JobStatus::Running, JobOrigin::Persistent);
    old.started_at = 100;
    state.jobs.push(old);
    let mut fresh = mk_job(1, JobType::Parse, JobStatus::Running, JobOrigin::Persistent);
    fresh.started_at = 200;
    state.merge_loaded_jobs(vec![fresh]);
    assert_eq!(state.jobs[0].started_at, 200);
}

#[test]
fn push_job_adds_at_front() {
    let mut state = JobsState::default();
    state.push_job(job(1, JobStatus::Running, 10));
    state.push_job(job(2, JobStatus::Pending, 20));
    assert_eq!(state.jobs[0].id, 2);
    assert_eq!(state.jobs[1].id, 1);
}

#[test]
fn trim_drops_oldest_finished_jobs_first() {
    let mut state = JobsState::default();
    // Oldest at the end: push in order of age.
    for id in 0..(MAX_JOBS as i64) {
        state.push_job(job(id, JobStatus::Completed, id));
    }
    assert_eq!(state.jobs.len(), MAX_JOBS);
    state.push_job(job(1000, JobStatus::Running, 1000));
    assert_eq!(state.jobs.len(), MAX_JOBS);
    assert_eq!(state.jobs[0].id, 1000);
    // Job 0 was the oldest finished job.
    assert!(!state.jobs.iter().any(|j| j.id == 0));
    assert!(state.jobs.iter().any(|j| j.id == 1));
}

#[test]
fn trim_keeps_running_and_pending_jobs() {
    let mut state = JobsState::default();
    for id in 0..(MAX_JOBS as i64 + 5) {
        state.push_job(job(id, JobStatus::Running, id));
    }
    assert_eq!(state.jobs.len(), MAX_JOBS + 5);
    state.push_job(job(9000, JobStatus::Failed, 1));
    assert_eq!(state.jobs.len(), MAX_JOBS + 5);
    assert!(state.jobs.iter().all(|j| j.status == JobStatus::Running));
}

#[test]
fn trim_keeps_cancelled_jobs() {
    let mut state = JobsState::default();
    for id in 0..(MAX_JOBS as i64) {
        state.push_job(job(id, JobStatus::Cancelled, id));
    }
    state.push_job(job(5000, JobStatus::Completed, 5000));
    // The only removable job is the newest one, so it goes.
    assert_eq!(state.jobs.len(), MAX_JOBS);
    assert!(!state.jobs.iter().any(|j| j.id == 5000));
}

#[test]
fn aggregate_stats_counts_and_sums() {
    let state = JobsState { jobs: create_test_jobs(), ..Default::default() };
    let (running, done, failed, files, bytes) = state.aggregate_stats();
    assert_eq!(running, 1);
    assert_eq!(done, 1);
    assert_eq!(failed, 1);
    assert_eq!(files, 180);
    assert_eq!(bytes, 1024 * 1024);
}

#[test]
fn actionable_and_ready_lists_are_ordered() {
    let state = JobsState { jobs: create_test_jobs(), ..Default::default() };
    let actionable: Vec<i64> = state.actionable_jobs().iter().map(|j| j.id).collect();
    assert_eq!(actionable, vec![2, 1, 3]);
    let ready: Vec<i64> = state.ready_jobs().iter().map(|j| j.id).collect();
    assert_eq!(ready, vec![4]);
}

#[test]
fn filtered_jobs_put_failed_first_then_newest() {
    let state = JobsState { jobs: create_test_jobs(), ..Default::default() };
    let ids: Vec<i64> = state.filtered_jobs().iter().map(|j| j.id).collect();
    assert_eq!(ids, vec![3, 4, 2, 1]);
}

#[test]
fn status_filter_cycles_back_to_none() {
    let mut state = JobsState { jobs: create_test_jobs(), ..Default::default() };
    for _ in 0..7 {
        state.cycle_status_filter();
    }
    assert_eq!(state.status_filter, None);
    state.cycle_type_filter();
    assert_eq!(state.type_filter, Some(JobType::Scan));
    state.clear_filters();
    assert_eq!(state.type_filter, None);
}

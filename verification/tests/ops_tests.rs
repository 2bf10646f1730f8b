use casparian_tui::backend::BackendRouter;
use casparian_tui::discover::{DiscoverViewState, TagInfo, TagSource};
use casparian_tui::discover_ops::tag_list_from_counts;
use casparian_tui::discover_state::{DiscoverState, FileInfo};
use casparian_tui::jobs::{JobInfo, JobStatus, JobType, SchemaEvalMode};
use casparian_tui::jobs_state::JobsState;

fn file(id: i64, rel: &str, tags: &[&str]) -> FileInfo {
    FileInfo {
        file_id: id,
        path: format!("/data/{}", rel),
        rel_path: rel.to_string(),
        size: 1,
        modified: 0,
        is_dir: false,
        tags: tags.iter().map(|t| t.to_string()).collect(),
    }
}

fn writable() -> BackendRouter {
    BackendRouter::new(None, true, false)
}

#[test]
fn scan_jobs_tracked() {
    let mut s = JobsState::default();
    let id = s.add_scan_job_at("/data/in", 1_700_000_000_000);
    assert_eq!(id, 1_700_000_000_000);
    assert_eq!(s.jobs.len(), 1);
    assert_eq!(s.jobs[0].job_type, JobType::Scan);
    assert_eq!(s.jobs[0].status, JobStatus::Running);
    assert_eq!(s.jobs[0].output_path.as_deref(), Some("/data/in"));
    s.update_job_status(id, JobStatus::Running, None, Some(5), Some(10), 1_700_000_000_500);
    assert_eq!(s.jobs[0].items_processed, 5);
    assert_eq!(s.jobs[0].items_total, 10);
    assert_eq!(s.jobs[0].completed_at, None);
    s.update_job_status(id, JobStatus::Failed, Some("disk full".to_string()), None, None, 1_700_000_001_000);
    assert_eq!(s.jobs[0].status, JobStatus::Failed);
    assert_eq!(s.jobs[0].completed_at, Some(1_700_000_001_000));
    assert_eq!(s.jobs[0].failures.len(), 1);
    assert_eq!(s.jobs[0].failures[0].error, "disk full");
    assert_eq!(s.jobs[0].failures[0].file_path, "");
    s.update_job_status(42, JobStatus::Completed, None, None, None, 0);
    assert_eq!(s.jobs[0].status, JobStatus::Failed);
    let live = s.add_scan_job("/tmp");
    assert_eq!(s.jobs[0].id, live);
    let _ = JobInfo::new_at(0);
}

#[test]
fn filters_choose_files() {
    let mut d = DiscoverState::default();
    d.files = vec![
        file(1, "sales/Q1.csv", &["sales"]),
        file(2, "hr/people.csv", &[]),
        file(3, "sales/notes.txt", &["sales", "text"]),
    ];
    assert_eq!(d.filtered_file_indices(&None), vec![0, 1, 2]);
    d.filter = "  SALES ".to_string();
    assert!(!d.filter_is_glob());
    assert_eq!(d.filtered_file_indices(&None), vec![0, 2]);
    d.filter = "*.csv".to_string();
    assert!(d.filter_is_glob());
    assert_eq!(d.filtered_file_indices(&Some(vec![true, true, false])), vec![0, 1]);
    assert_eq!(d.filtered_file_indices(&None), vec![0, 1, 2]);
    d.filter = String::new();
    d.tags = vec![
        TagInfo { name: "All files".to_string(), count: 3, is_special: true },
        TagInfo { name: "text".to_string(), count: 1, is_special: false },
        TagInfo { name: "untagged".to_string(), count: 1, is_special: true },
    ];
    d.selected_tag = Some(1);
    assert_eq!(d.filtered_file_indices(&None), vec![2]);
    d.view_state = DiscoverViewState::TagsDropdown;
    d.preview_tag = Some(2);
    assert_eq!(d.filtered_file_indices(&None), vec![1]);
}

#[test]
fn tagging_files() {
    let mut d = DiscoverState::default();
    d.files = vec![file(7, "a.csv", &["x"]), file(8, "b.csv", &[])];
    let blocked = BackendRouter::new(None, false, true);
    assert!(!d.queue_tag_for_file(&blocked, false, Some(1), 8, "new", TagSource::Manual, None, true));
    assert_eq!(d.scan_error.as_deref(), Some("Database is read-only; cannot apply tags"));
    assert!(!d.queue_tag_for_file(&writable(), false, None, 8, "new", TagSource::Manual, None, true));
    assert_eq!(
        d.status_message,
        Some(("No workspace selected; cannot apply tags".to_string(), true))
    );
    assert!(!d.queue_tag_for_file(&writable(), false, Some(1), 8, "new", TagSource::Rule, None, true));
    assert!(!d.queue_tag_for_file(&writable(), false, Some(1), 7, "x", TagSource::Manual, None, true));
    assert_eq!(d.status_message, Some(("File already has tag 'x'".to_string(), true)));
    assert!(d.queue_tag_for_file(&writable(), false, Some(1), 8, "new", TagSource::Manual, None, true));
    assert_eq!(d.files[1].tags, vec!["new"]);
    assert_eq!(d.pending_tag_writes.len(), 1);
    assert_eq!(d.pending_tag_writes[0].file_id, 8);
    assert_eq!(d.available_tags, vec!["new"]);
    assert_eq!(d.status_message, Some(("Tagged 'b.csv' with 'new'".to_string(), false)));
    assert!(d.queue_tag_for_file(&writable(), true, Some(1), 99, "new", TagSource::Rule, Some(5), true));
    assert_eq!(d.status_message, Some(("Tagged 'file 99' with 'new'".to_string(), false)));
    assert_eq!(d.available_tags, vec!["new"]);
}

#[test]
fn tag_lists_from_counts() {
    let counts = vec![("a".to_string(), 3), ("zero".to_string(), 0), ("b".to_string(), 1)];
    let (tags, names) = tag_list_from_counts(10, &counts, 2);
    assert_eq!(names, vec!["a", "b"]);
    let shown: Vec<(String, usize, bool)> = tags.iter().map(|t| (t.name.clone(), t.count, t.is_special)).collect();
    assert_eq!(
        shown,
        vec![
            ("All files".to_string(), 10, true),
            ("a".to_string(), 3, false),
            ("b".to_string(), 1, false),
            ("untagged".to_string(), 2, true)
        ]
    );
    let (tags, _) = tag_list_from_counts(-4, &Vec::new(), 0);
    assert_eq!(tags.len(), 1);
    assert_eq!(tags[0].count, 0);
    let mut d = DiscoverState::default();
    d.available_tags = vec!["x".to_string()];
    d.reset_tags();
    assert_eq!(d.tags.len(), 1);
    assert!(d.available_tags.is_empty());
}

#[test]
fn schema_eval_jobs_tracked() {
    let mut s = JobsState::default();
    let id = s.add_schema_eval_job_at(SchemaEvalMode::Sample, 120, 1_700_000_000_000);
    assert_eq!(id, 1_700_000_000_000);
    assert_eq!(s.jobs[0].job_type, JobType::SchemaEval);
    assert_eq!(s.jobs[0].name, "schema-sample");
    assert_eq!(s.jobs[0].items_total, 120);
    assert_eq!(s.jobs[0].status, JobStatus::Running);
    s.set_schema_eval_job_total(id, 500);
    assert_eq!(s.jobs[0].items_total, 120);
    let full = s.add_schema_eval_job_at(SchemaEvalMode::Full, 0, 1_700_000_000_001);
    assert_eq!(s.jobs[0].name, "schema-full");
    s.set_schema_eval_job_total(full, 500);
    assert_eq!(s.jobs[0].items_total, 500);
    s.update_schema_eval_job(full, JobStatus::Completed, 500, Some("3 paths skipped".to_string()));
    assert_eq!(s.jobs[0].items_processed, 500);
    assert!(s.jobs[0].completed_at.is_some());
    assert_eq!(s.jobs[0].failures[0].error, "3 paths skipped");
    assert_eq!(s.jobs[1].status, JobStatus::Running);
    let live = s.add_schema_eval_job(SchemaEvalMode::Sample, 3);
    assert_eq!(s.jobs[0].id, live);
}

#[test]
fn entering_a_scan_shows_it_and_tracks_a_job() {
    let mut d = DiscoverState::default();
    d.scan_error = Some("old".to_string());
    d.status_message = Some(("x".to_string(), false));
    let mut jobs = JobsState::default();
    let id = d.enter_scanning("/data/in", &mut jobs);
    assert_eq!(d.scanning_path.as_deref(), Some("/data/in"));
    let p = d.scan_progress.as_ref().unwrap();
    assert_eq!(p.current_dir.as_deref(), Some("Initializing..."));
    assert_eq!(p.files_found, 0);
    assert!(d.scan_start_time.is_some());
    assert_eq!(d.view_state, DiscoverViewState::Scanning);
    assert_eq!(d.scan_error, None);
    assert_eq!(d.status_message, None);
    assert_eq!(jobs.jobs[0].id, id);
    assert_eq!(jobs.jobs[0].job_type, JobType::Scan);
}

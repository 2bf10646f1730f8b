use casparian_tui::discover_state::DiscoverState;
use casparian_tui::extraction::FileResultsPhase;
use casparian_tui::jobs::JobType;
use casparian_tui::jobs_state::JobsState;
use casparian_tui::rule_builder::RuleBuilderState;
use casparian_tui::glob_pattern::parse_custom_glob;
use casparian_tui::rule_search::{group_by_folder, preview_files, SearchOutcome};

#[test]
fn matches_grouped_by_folder_most_first() {
    let paths: Vec<String> = vec!["a/x.csv", "b/y.csv", "b/z.csv", "top.csv", "a/w.csv", "b/c/d.csv", "./q.csv"]
        .into_iter()
        .map(|s| s.to_string())
        .collect();
    let groups = group_by_folder(&paths);
    let summary: Vec<(String, usize, String)> =
        groups.iter().map(|g| (g.path.clone(), g.count, g.sample_filename.clone())).collect();
    assert_eq!(
        summary,
        vec![
            ("a/".to_string(), 2, "x.csv".to_string()),
            ("b/".to_string(), 2, "y.csv".to_string()),
            ("./".to_string(), 2, "top.csv".to_string()),
            ("b/c/".to_string(), 1, "d.csv".to_string()),
        ]
    );
    assert!(groups.iter().all(|g| g.files.is_empty()));
    assert!(group_by_folder(&vec![]).is_empty());
}

#[test]
fn match_search_refusals_and_start() {
    let mut b = RuleBuilderState::new(None);
    b.match_count = 9;
    assert!(!b.begin_match_search(Some(1), true, true, true));
    assert_eq!(b.pattern_error.as_deref(), Some("No source selected"));
    assert_eq!(b.match_count, 0);
    assert_eq!(b.file_results_phase, FileResultsPhase::Exploration);
    assert!(!b.begin_match_search(None, true, true, true));
    assert_eq!(b.pattern_error.as_deref(), Some("No workspace selected"));
    let mut s = RuleBuilderState::new(Some("5".to_string()));
    assert!(!s.begin_match_search(Some(1), false, true, true));
    assert_eq!(s.pattern_error.as_deref(), Some("Invalid pattern"));
    assert!(!s.is_streaming);
    assert!(!s.begin_match_search(Some(1), true, false, true));
    assert_eq!(s.pattern_error.as_deref(), Some("Sentinel not connected"));
    assert!(s.is_streaming);
    assert!(s.begin_match_search(Some(1), true, true, true));
    assert_eq!(s.pattern_error, None);
}

#[test]
fn full_eval_starts_a_job() {
    let mut d = DiscoverState::default();
    let mut jobs = JobsState::default();
    assert_eq!(d.begin_full_schema_eval(false, Some(1), true, true, &mut jobs), None);
    d.rule_builder = Some(RuleBuilderState::new(None));
    assert_eq!(d.begin_full_schema_eval(false, Some(1), true, true, &mut jobs), None);
    assert_eq!(d.status_message, Some(("No source selected".to_string(), true)));
    d.rule_builder = Some(RuleBuilderState::new(Some("5".to_string())));
    d.begin_full_schema_eval(false, Some(1), false, true, &mut jobs);
    assert_eq!(d.status_message, Some(("Sentinel not connected; cannot run full eval".to_string(), true)));
    assert_eq!(d.begin_full_schema_eval(true, Some(1), true, true, &mut jobs), None);
    assert!(jobs.jobs.is_empty());
    let id = d.begin_full_schema_eval(false, Some(1), true, true, &mut jobs).unwrap();
    assert_eq!(jobs.jobs[0].id, id);
    assert_eq!(jobs.jobs[0].job_type, JobType::SchemaEval);
    assert_eq!(jobs.jobs[0].name, "schema-full");
}

#[test]
fn preview_keeps_matching_files_and_reads_fields() {
    let parsed = parse_custom_glob("**/<mission>/*.csv").unwrap();
    let rows: Vec<(String, bool, bool)> = vec![
        ("data/m1/a.csv".to_string(), true, false),
        ("data/m2/b.csv".to_string(), true, true),
        ("data/m3/c.txt".to_string(), false, false),
        ("data/m4/d.csv".to_string(), true, false),
    ];
    let files = preview_files(&rows, &parsed);
    assert_eq!(files.len(), 2);
    assert_eq!(files[0].relative_path, "data/m1/a.csv");
    assert_eq!(files[0].path, "data/m1/a.csv");
    assert_eq!(files[0].extractions.get("mission").map(|s| s.as_str()), Some("m1"));
    assert_eq!(files[1].extractions.get("mission").map(|s| s.as_str()), Some("m4"));
    assert!(files[1].warnings.is_empty());
    let many: Vec<(String, bool, bool)> = (0..150).map(|i| (format!("x/m{}/f.csv", i), true, false)).collect();
    let capped = preview_files(&many, &parsed);
    assert_eq!(capped.len(), 100);
    assert_eq!(capped[99].relative_path, "x/m99/f.csv");
}

#[test]
fn preview_start_refusals() {
    let mut b = RuleBuilderState::new(Some("5".to_string()));
    let bad = parse_custom_glob("<open");
    assert!(bad.is_err());
    assert!(!b.begin_extraction_preview(&bad, None, true, Some(1), true, true));
    assert_eq!(b.file_results_phase, FileResultsPhase::ExtractionPreview);
    assert!(b.pattern_error.is_some());
    let good = parse_custom_glob("**/<mission>/*.csv");
    assert!(!b.begin_extraction_preview(&good, None, false, Some(1), true, true));
    assert_eq!(b.pattern_error.as_deref(), Some("Invalid glob pattern"));
    assert!(!b.begin_extraction_preview(&good, None, true, Some(1), false, true));
    assert_eq!(b.pattern_error.as_deref(), Some("Sentinel not connected"));
    b.match_count = 4;
    assert!(b.begin_extraction_preview(&good, Some("field clash".to_string()), true, Some(1), true, true));
    assert_eq!(b.pattern_error.as_deref(), Some("field clash"));
    assert_eq!(b.match_count, 0);
    assert!(b.is_streaming);
}

#[test]
fn search_results_apply_only_to_the_current_pattern() {
    let mut b = RuleBuilderState::new(Some("5".to_string()));
    b.pattern = "*.csv".to_string();
    b.is_streaming = true;
    let m = vec![casparian_tui::extraction::FolderMatch {
        path: "a/".to_string(),
        count: 3,
        sample_filename: "x.csv".to_string(),
        files: vec![],
    }];
    assert_eq!(b.apply_search_result("*.txt", m.clone(), 3, None, false), SearchOutcome::Stale);
    assert!(b.is_streaming);
    assert_eq!(
        b.apply_search_result("**/*.csv", m.clone(), 3, None, false),
        SearchOutcome::Shown { run_sample_eval: true }
    );
    assert_eq!(b.match_count, 3);
    assert_eq!(b.folder_matches.len(), 1);
    assert!(!b.is_streaming);
    assert_eq!(b.apply_search_result("*.csv", vec![], 0, None, false), SearchOutcome::Shown { run_sample_eval: false });
    assert_eq!(b.apply_search_result("*.csv", m, 3, None, true), SearchOutcome::Shown { run_sample_eval: false });
    assert_eq!(
        b.apply_search_result("*.csv", vec![], 0, Some("boom".to_string()), false),
        SearchOutcome::Failed("boom".to_string())
    );
    assert_eq!(b.pattern_error.as_deref(), Some("boom"));
    assert_eq!(b.match_count, 0);
    assert!(b.folder_matches.is_empty());
}

#[test]
fn preview_results_apply_only_to_the_current_pattern() {
    let mut b = RuleBuilderState::new(Some("5".to_string()));
    b.pattern = "**/<m>/*.csv".to_string();
    b.selected_file = 4;
    assert_eq!(b.apply_preview_result("other", vec![], 9, None), None);
    assert_eq!(b.selected_file, 4);
    let parsed = parse_custom_glob("**/<m>/*.csv").unwrap();
    let files = preview_files(&vec![("d/m1/a.csv".to_string(), true, false)], &parsed);
    assert_eq!(b.apply_preview_result("**/<m>/*.csv", files, 9, None), None);
    assert_eq!(b.preview_files.len(), 1);
    assert_eq!(b.match_count, 9);
    assert_eq!(b.selected_file, 0);
    assert_eq!(b.file_results_phase, FileResultsPhase::ExtractionPreview);
    assert_eq!(b.apply_preview_result("**/<m>/*.csv", vec![], 0, Some("bad".to_string())), Some("bad".to_string()));
    assert!(b.preview_files.is_empty());
    b.is_streaming = true;
    b.search_lost();
    assert!(!b.is_streaming);
}

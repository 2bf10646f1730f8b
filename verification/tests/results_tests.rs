use casparian_tui::extraction::{ExtractionPreviewFile, FileResultsPhase, FileTestResult};
use casparian_tui::rule_builder::{RuleBuilderFile, RuleBuilderState};
use casparian_tui::glob_pattern::FieldValues;
use std::collections::HashMap;

fn preview(rel: &str) -> ExtractionPreviewFile {
    ExtractionPreviewFile {
        path: format!("/src/{}", rel),
        relative_path: rel.to_string(),
        extractions: FieldValues::new(),
        warnings: vec![],
    }
}

fn matched(rel: &str) -> RuleBuilderFile {
    RuleBuilderFile {
        path: format!("/src/{}", rel),
        relative_path: rel.to_string(),
        extractions: HashMap::new(),
        test_result: FileTestResult::Pass,
    }
}

#[test]
fn selected_result_path_follows_phase() {
    let mut b = RuleBuilderState::new(None);
    assert_eq!(b.selected_rel_path(), None);
    b.file_results_phase = FileResultsPhase::ExtractionPreview;
    b.preview_files = vec![preview("a.csv"), preview("b.csv")];
    b.selected_file = 1;
    assert_eq!(b.selected_rel_path().as_deref(), Some("b.csv"));
    b.selected_file = 2;
    assert_eq!(b.selected_rel_path(), None);
    b.file_results_phase = FileResultsPhase::BacktestResults;
    b.matched_files = vec![matched("x.csv"), matched("y.csv"), matched("z.csv")];
    b.visible_indices = vec![2, 0, 7];
    b.selected_file = 0;
    assert_eq!(b.selected_rel_path().as_deref(), Some("z.csv"));
    b.selected_file = 2;
    assert_eq!(b.selected_rel_path(), None);
}

#[test]
fn preview_paths_keep_selected_ones() {
    let mut b = RuleBuilderState::new(None);
    assert!(b.preview_paths(false, &vec![]).is_empty());
    b.file_results_phase = FileResultsPhase::ExtractionPreview;
    b.preview_files = vec![preview("a.csv"), preview("b.csv"), preview("c.csv")];
    assert_eq!(b.preview_paths(false, &vec![]), vec!["a.csv", "b.csv", "c.csv"]);
    assert_eq!(b.preview_paths(true, &vec!["c.csv".to_string(), "a.csv".to_string()]), vec!["a.csv", "c.csv"]);
    b.file_results_phase = FileResultsPhase::BacktestResults;
    b.matched_files = vec![matched("x.csv"), matched("y.csv")];
    b.visible_indices = vec![1, 5, 0];
    assert_eq!(b.preview_paths(false, &vec![]), vec!["y.csv", "x.csv"]);
    assert_eq!(b.preview_paths(true, &vec!["x.csv".to_string()]), vec!["x.csv"]);
}

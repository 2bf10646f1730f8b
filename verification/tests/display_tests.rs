use casparian_tui::extraction::{format_with_commas, GlobProgress, HistogramConfig};
use casparian_tui::jobs::{JobStatus, OutcomeStatus, QueueStatus};
use casparian_tui::shell::{BoundFileStatus, CacheLoadProgress, ParserHealth};

#[test]
fn histogram_label_padding_and_cut() {
    let cfg = HistogramConfig::default_config();
    assert_eq!(cfg.truncate_label("abc"), format!("{:<15}", "abc"));
    assert_eq!(cfg.truncate_label("abcdefghijklmno"), "abcdefghijklmno");
    assert_eq!(cfg.truncate_label("abcdefghijklmnopq"), "abcdefghijkl...");
    assert_eq!(cfg.truncate_label("a_very_long_label_name"), "a_very_long_...");
}

#[test]
fn histogram_labels_count_characters() {
    let mut cfg = HistogramConfig::default_config();
    cfg.max_label_width = 3;
    assert_eq!(cfg.truncate_label("\u{e9}\u{e9}"), "\u{e9}\u{e9} ");
    assert_eq!(cfg.truncate_label("\u{e9}\u{e9}\u{e9}\u{e9}"), "...");
    cfg.max_label_width = 5;
    assert_eq!(cfg.truncate_label("\u{e9}t\u{e9}s\u{e9}x"), "\u{e9}t...");
    cfg.max_label_width = 0;
    assert_eq!(cfg.truncate_label(""), "");
}

#[test]
fn histogram_bar_cells() {
    let cfg = HistogramConfig::default_config();
    assert_eq!(cfg.bar(3), "\u{2588}\u{2588}\u{2588}\u{2591}\u{2591}\u{2591}\u{2591}\u{2591}\u{2591}\u{2591}\u{2591}\u{2591}");
    assert_eq!(cfg.bar(0).chars().count(), 12);
    assert!(cfg.bar(12).chars().all(|c| c == '\u{2588}'));
}

#[test]
fn commas_group_thousands() {
    assert_eq!(format_with_commas(0), "0");
    assert_eq!(format_with_commas(999), "999");
    assert_eq!(format_with_commas(2450), "2,450");
    assert_eq!(format_with_commas(1234567), "1,234,567");
}

#[test]
fn glob_status_line_forms() {
    let mut p = GlobProgress::idle();
    p.files_found = 2450;
    assert_eq!(p.status_line_with(45), "Scanning... (2,450 files, 45%)");
    p.current_folder = "logs/2024/".to_string();
    assert_eq!(p.status_line_with(45), "Scanning logs/2024/... (2,450 files, 45%)");
    p.current_folder = "a/very/long/folder/name/that/goes/on/".to_string();
    let line = p.status_line_with(7);
    let expected_tail = &"a/very/long/folder/name/that/goes/on/"[37 - 27..];
    assert_eq!(
        line,
        format!("Scanning ...{}/... (2,450 files, 7%)", expected_tail.trim_end_matches('/'))
    );
}

#[test]
fn cache_progress_name_shortened() {
    let short = CacheLoadProgress::new("docs".to_string());
    assert_eq!(short.display_name(), "docs");
    let long = CacheLoadProgress::new("abcdefghijklmnopqrstuvwxyz0123".to_string());
    assert_eq!(long.display_name(), "...ijklmnopqrstuvwxyz0123");
}

#[test]
fn parser_and_file_symbols() {
    assert_eq!(ParserHealth::Healthy { success_rate_permille: 990, total_runs: 3 }.symbol(), "\u{25cf}");
    assert_eq!(ParserHealth::Warning { consecutive_failures: 2 }.symbol(), "\u{26a0}");
    assert_eq!(ParserHealth::Paused { reason: "x".to_string() }.symbol(), "\u{23f8}");
    assert_eq!(ParserHealth::Unknown.symbol(), "\u{25cb}");
    assert_eq!(ParserHealth::BrokenLink.symbol(), "\u{2717}");
    assert_eq!(BoundFileStatus::Pending.symbol(), "\u{25cb}");
    assert_eq!(BoundFileStatus::Processed.symbol(), "\u{2713}");
    assert_eq!(BoundFileStatus::Failed.symbol(), "\u{2717}");
}

#[test]
fn db_status_mapping() {
    assert_eq!(JobStatus::from_db_status("QUEUED", Some(QueueStatus::Queued), None, None), JobStatus::Pending);
    assert_eq!(JobStatus::from_db_status("RUNNING", Some(QueueStatus::Staged), None, None), JobStatus::Running);
    assert_eq!(
        JobStatus::from_db_status("FAILED", Some(QueueStatus::Failed), Some(OutcomeStatus::Aborted), None),
        JobStatus::Cancelled
    );
    assert_eq!(
        JobStatus::from_db_status("COMPLETED", Some(QueueStatus::Completed), Some(OutcomeStatus::CompletedWithWarnings), None),
        JobStatus::PartialSuccess
    );
    assert_eq!(
        JobStatus::from_db_status("COMPLETED", Some(QueueStatus::Completed), None, None),
        JobStatus::Completed
    );
    assert_eq!(JobStatus::from_db_status("cancelled", None, None, None), JobStatus::Cancelled);
    assert_eq!(
        JobStatus::from_db_status("SUCCESS", None, None, Some(OutcomeStatus::Success)),
        JobStatus::Completed
    );
    assert_eq!(
        JobStatus::from_db_status("REJECTED", None, None, Some(OutcomeStatus::Rejected)),
        JobStatus::Pending
    );
    assert_eq!(JobStatus::from_db_status("???", None, None, None), JobStatus::Pending);
}

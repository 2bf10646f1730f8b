use casparian_tui::discover::TagInfo;
use casparian_tui::discover_state::{DiscoverState, DiscoverTagFilter, FileInfo};
use casparian_tui::discover::DiscoverViewState;
use casparian_tui::file_filters::{glob_match_name, glob_to_like_pattern};

#[test]
fn name_patterns() {
    assert!(glob_match_name("report.csv", "*.csv"));
    assert!(!glob_match_name("report.json", "*.csv"));
    assert!(glob_match_name("report.csv", "rep*"));
    assert!(glob_match_name("report_2024.csv", "report*.csv"));
    assert!(!glob_match_name("data_2024.csv", "report*.csv"));
    assert!(glob_match_name("xx_abc_yy", "*a*b*c"));
    assert!(glob_match_name("my_report", "report"));
    assert!(!glob_match_name("my_rep", "report"));
}

#[test]
fn like_patterns() {
    assert_eq!(glob_to_like_pattern("**/*.csv"), "%.csv");
    assert_eq!(glob_to_like_pattern("data/**"), "data/%");
    assert_eq!(glob_to_like_pattern("a?_b"), "a_\\_b");
    assert_eq!(glob_to_like_pattern("x\\*y"), "x*y");
    assert_eq!(glob_to_like_pattern("100%"), "100%");
    assert_eq!(glob_to_like_pattern("end\\"), "end");
}

fn files(n: usize) -> Vec<FileInfo> {
    (0..n)
        .map(|i| FileInfo {
            file_id: i as i64,
            path: format!("/p/{}", i),
            rel_path: format!("{}", i),
            size: 0,
            modified: 0,
            is_dir: false,
            tags: Vec::new(),
        })
        .collect()
}

#[test]
fn paging() {
    let mut d = DiscoverState::default();
    d.page_size = 10;
    d.total_files = 25;
    d.files = files(10);
    assert_eq!(d.page_bounds(), (1, 10, 25));
    d.data_loaded = true;
    d.selected = 4;
    d.next_page();
    assert_eq!(d.page_offset, 10);
    assert_eq!(d.selected, 0);
    assert!(!d.data_loaded);
    d.next_page();
    assert_eq!(d.page_offset, 20);
    d.files = files(5);
    assert_eq!(d.page_bounds(), (21, 25, 25));
    d.next_page();
    assert_eq!(d.page_offset, 20);
    d.prev_page();
    assert_eq!(d.page_offset, 10);
    d.first_page();
    assert_eq!(d.page_offset, 0);
    d.last_page();
    assert_eq!(d.page_offset, 20);
    d.total_files = 0;
    d.files = Vec::new();
    assert_eq!(d.page_bounds(), (0, 0, 0));
}

#[test]
fn tag_filter_choice() {
    let tag = |n: &str| TagInfo { name: n.to_string(), count: 1, is_special: false };
    let mut d = DiscoverState::default();
    d.tags = vec![tag("All files"), tag("untagged"), tag("sales")];
    assert_eq!(d.active_tag_filter(), DiscoverTagFilter::All);
    d.selected_tag = Some(2);
    assert_eq!(d.active_tag_filter(), DiscoverTagFilter::Tag("sales".to_string()));
    d.view_state = DiscoverViewState::TagsDropdown;
    d.preview_tag = Some(1);
    assert_eq!(d.active_tag_filter(), DiscoverTagFilter::Untagged);
    d.preview_tag = Some(9);
    assert_eq!(d.active_tag_filter(), DiscoverTagFilter::All);
}

#[test]
fn path_suggestions() {
    let mut d = DiscoverState::default();
    assert!(!d.apply_path_suggestion());
    d.path_suggestions = vec!["logs".to_string(), "data".to_string()];
    d.path_suggestion_idx = 1;
    d.scan_path_input = "/var/lo".to_string();
    assert!(d.apply_path_suggestion());
    assert_eq!(d.scan_path_input, "/var/data");
    d.scan_path_input = "/var/".to_string();
    assert!(d.apply_path_suggestion());
    assert_eq!(d.scan_path_input, "/var/data");
    d.scan_path_input = "da".to_string();
    assert!(d.apply_path_suggestion());
    assert_eq!(d.scan_path_input, "data");
    d.scan_path_input = "C:\\Users\\x".to_string();
    assert!(d.apply_path_suggestion());
    assert_eq!(d.scan_path_input, "C:\\Users\\data");
}

use casparian_tui::discover::{FsEntry, GlobFileCount};
use casparian_tui::glob_explorer::{sort_by_count, FolderCache, GlobExplorerState};

fn explorer() -> GlobExplorerState {
    GlobExplorerState {
        pattern: "*.csv".to_string(),
        nav_history: vec![],
        current_prefix: "logs/".to_string(),
        folders: vec![],
        total_count: GlobFileCount::Exact(0),
        folder_cache: FolderCache::new(),
        cache_loaded: false,
        cache_source_id: Some(3),
        cache_workspace_id: Some(7),
        selected_folder: 4,
        pattern_cursor: 0,
        last_searched_pattern: String::new(),
        last_searched_prefix: String::new(),
        excludes: vec![],
        scan_in_progress: false,
    }
}

fn names(v: &[FsEntry]) -> Vec<String> {
    v.iter().map(|e| e.name().to_string()).collect()
}

#[test]
fn sort_is_stable_by_count() {
    let v = vec![
        FsEntry::folder("a".to_string(), 1),
        FsEntry::folder("b".to_string(), 5),
        FsEntry::folder("c".to_string(), 1),
        FsEntry::file("d".to_string(), 5),
    ];
    assert_eq!(names(&sort_by_count(v)), vec!["b", "d", "a", "c"]);
}

#[test]
fn folder_levels_are_cached_and_shown_for_the_current_prefix() {
    let mut e = explorer();
    let level = vec![FsEntry::folder("x".to_string(), 1), FsEntry::folder("y".to_string(), 9)];
    e.apply_folder_query(Some(8), 7, "logs/".to_string(), level.clone(), 10);
    assert!(e.folder_cache.get("logs/").is_none());
    e.apply_folder_query(Some(7), 7, "other/".to_string(), level.clone(), 10);
    assert_eq!(names(e.folder_cache.get("other/").unwrap()), vec!["x", "y"]);
    assert!(e.folders.is_empty());
    e.apply_folder_query(Some(7), 7, "logs/".to_string(), level, 10);
    assert_eq!(names(&e.folders), vec!["y", "x"]);
    assert_eq!(e.total_count.value(), 10);
    assert_eq!(e.selected_folder, 0);
    assert_eq!(names(e.folder_cache.get("logs/").unwrap()), vec!["x", "y"]);
    e.apply_folder_query_error("timeout");
    assert_eq!(names(&e.folders), vec!["Error: timeout"]);
}

#[test]
fn glob_search_results_apply_to_the_current_pattern() {
    let mut e = explorer();
    assert_eq!(e.apply_glob_search("*.txt", vec![FsEntry::file("a".to_string(), 1)], 1, None), None);
    assert!(e.folders.is_empty());
    assert_eq!(e.apply_glob_search("*.csv", vec![FsEntry::file("a.csv".to_string(), 1)], 42, None), None);
    assert_eq!(names(&e.folders), vec!["a.csv"]);
    assert_eq!(e.total_count.value(), 42);
    assert_eq!(
        e.apply_glob_search("*.csv", vec![], 0, Some("down".to_string())),
        Some("down".to_string())
    );
    assert_eq!(names(&e.folders), vec!["Error: down"]);
    assert_eq!(e.total_count.value(), 0);
}

#[test]
fn loaded_cache_shows_the_root() {
    let mut e = explorer();
    let mut cache = FolderCache::new();
    cache.insert(String::new(), vec![FsEntry::folder("logs".to_string(), 4), FsEntry::folder("data".to_string(), 6)]);
    cache.insert("logs/".to_string(), vec![FsEntry::file("a.log".to_string(), 1)]);
    e.apply_cache_loaded(9, 11, cache);
    assert!(e.cache_loaded);
    assert_eq!(e.cache_workspace_id, Some(9));
    assert_eq!(e.cache_source_id, Some(11));
    assert_eq!(e.selected_folder, 0);
    assert_eq!(names(&e.folders), vec!["logs", "data"]);
    assert_eq!(e.total_count.value(), 10);
    e.apply_cache_error();
    assert!(e.folders.is_empty());
}

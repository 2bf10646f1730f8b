use casparian_tui::discover::{PendingRuleDelete, PendingSourceDelete, PendingTagWrite, TagSource};
use casparian_tui::discover_state::{DiscoverState, DiscoverTagFilter};
use casparian_tui::files_query::{file_tags_sql, files_filter, query_offset, QueryParam};
use casparian_tui::write_queue::LocalWrites;

#[test]
fn control_writes_take_the_whole_queue() {
    let mut d = DiscoverState::default();
    assert!(d.begin_control_writes(false, true).is_none());
    d.pending_tag_writes.push(PendingTagWrite {
        file_id: 1,
        tag: "t".to_string(),
        workspace_id: 2,
        tag_source: TagSource::Manual,
        rule_id: None,
    });
    d.pending_source_touch = Some(4);
    assert!(d.begin_control_writes(true, true).is_none());
    assert_eq!(d.pending_tag_writes.len(), 1);
    assert!(d.begin_control_writes(false, false).is_none());
    assert_eq!(d.status_message, Some(("Control API not configured".to_string(), true)));
    let w = d.begin_control_writes(false, true).unwrap();
    assert_eq!(w.tag_writes.len(), 1);
    assert_eq!(w.source_touch, Some(4));
    assert!(w.sources_changed());
    assert!(!d.has_pending_writes());
}

#[test]
fn local_writes_blocked_keep_the_queue() {
    let mut d = DiscoverState::default();
    assert!(matches!(d.begin_local_writes(true), LocalWrites::Nothing));
    d.pending_rule_deletes.push(PendingRuleDelete { id: 9, workspace_id: 2 });
    match d.begin_local_writes(true) {
        LocalWrites::Blocked(m) => assert_eq!(
            m,
            "Sentinel not reachable; changes are not saved (use --standalone-writer to allow local writes)"
        ),
        _ => panic!("expected a refusal"),
    }
    assert!(d.scan_error.is_some());
    assert_eq!(d.pending_rule_deletes.len(), 1);
    d.pending_source_deletes.push(PendingSourceDelete { id: 3 });
    match d.begin_local_writes(false) {
        LocalWrites::Write(w) => {
            assert_eq!(w.rule_deletes.len(), 1);
            assert!(w.sources_changed());
        },
        _ => panic!("expected writes"),
    }
    assert!(!d.has_pending_writes());
}

#[test]
fn files_filter_builds_clauses_in_order() {
    let f = files_filter(
        0x0123_4567_89ab_cdef_0123_4567_89ab_cdef,
        7,
        &DiscoverTagFilter::Tag("sales".to_string()),
        Some(("LOWER(f.rel_path) LIKE LOWER(?)".to_string(), "%q1%".to_string())),
    );
    assert_eq!(f.join_clause, "JOIN scout_file_tags t ON t.file_id = f.id AND t.workspace_id = f.workspace_id");
    assert_eq!(f.where_sql, "f.workspace_id = ? AND f.source_id = ? AND t.tag = ? AND LOWER(f.rel_path) LIKE LOWER(?)");
    assert_eq!(
        f.params,
        vec![
            QueryParam::Text("01234567-89ab-cdef-0123-456789abcdef".to_string()),
            QueryParam::Integer(7),
            QueryParam::Text("sales".to_string()),
            QueryParam::Text("%q1%".to_string()),
        ]
    );
    let all = files_filter(1, 2, &DiscoverTagFilter::All, None);
    assert_eq!(all.count_sql(), "SELECT COUNT(*) FROM scout_files f  WHERE f.workspace_id = ? AND f.source_id = ?");
    let untagged = files_filter(1, 2, &DiscoverTagFilter::Untagged, None);
    assert_eq!(untagged.where_sql, "f.workspace_id = ? AND f.source_id = ? AND t.file_id IS NULL");
    assert_eq!(
        all.page_sql(),
        "SELECT f.id, f.path, f.rel_path, f.size, f.mtime, f.is_dir FROM scout_files f  WHERE f.workspace_id = ? AND f.source_id = ? ORDER BY f.rel_path ASC, f.id ASC LIMIT ? OFFSET ?"
    );
}

#[test]
fn page_offsets_and_tag_query() {
    assert_eq!(query_offset(300, 100, 0), 0);
    assert_eq!(query_offset(300, 100, 250), 200);
    assert_eq!(query_offset(100, 100, 250), 100);
    assert_eq!(query_offset(200, 100, 200), 100);
    assert_eq!(file_tags_sql(3), "SELECT file_id, tag FROM scout_file_tags WHERE workspace_id = ? AND file_id IN (?, ?, ?)");
}

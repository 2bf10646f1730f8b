use casparian_tui::discover::SourceInfo;
use casparian_tui::discover_state::DiscoverState;
use casparian_tui::shell::SourcesState;

fn source(id: i64, name: &str) -> SourceInfo {
    SourceInfo { id, name: name.to_string(), path: format!("/data/{}", name), file_count: 0 }
}

fn with_sources() -> DiscoverState {
    let mut d = DiscoverState::default();
    d.sources = vec![source(1, "alpha"), source(2, "beta"), source(3, "gamma")];
    d
}

fn sources_state(selected: usize) -> SourcesState {
    SourcesState {
        selected_index: selected,
        editing: false,
        creating: false,
        edit_value: String::new(),
        confirm_delete: false,
        previous_mode: None,
    }
}

#[test]
fn rename_trims_and_queues() {
    let mut d = with_sources();
    d.update_source_name(false, 2, "  delta ");
    assert_eq!(d.sources[1].name, "delta");
    assert_eq!(d.pending_source_updates.len(), 1);
    assert_eq!(d.pending_source_updates[0].id, 2);
    assert_eq!(d.pending_source_updates[0].name.as_deref(), Some("delta"));
    assert_eq!(d.pending_source_updates[0].path, None);
    assert_eq!(d.status_message, Some(("Renamed source to 'delta'".to_string(), false)));
}

#[test]
fn rename_refuses_taken_and_blank_names() {
    let mut d = with_sources();
    d.update_source_name(false, 2, "gamma");
    assert_eq!(d.sources[1].name, "beta");
    assert_eq!(d.status_message, Some(("Source name 'gamma' already exists".to_string(), true)));
    let mut e = with_sources();
    e.update_source_name(false, 2, "   ");
    assert_eq!(e.status_message, None);
    assert!(e.pending_source_updates.is_empty());
    // keeping its own name is allowed
    e.update_source_name(false, 2, "beta");
    assert_eq!(e.pending_source_updates.len(), 1);
    let mut f = with_sources();
    f.update_source_name(true, 2, "delta");
    assert_eq!(f.sources[1].name, "beta");
    assert_eq!(f.status_message, Some(("Database is read-only; cannot rename sources".to_string(), true)));
}

#[test]
fn delete_removes_and_repairs_selection() {
    let mut d = with_sources();
    d.selected_source_id = Some(3);
    d.sources_manager_selected = 2;
    let mut st = sources_state(2);
    d.delete_source(false, 3, &mut st);
    assert_eq!(d.sources.iter().map(|s| s.id).collect::<Vec<_>>(), vec![1, 2]);
    assert_eq!(d.pending_source_deletes.len(), 1);
    assert_eq!(d.pending_source_deletes[0].id, 3);
    assert_eq!(d.selected_source_id, Some(1));
    assert_eq!(st.selected_index, 1);
    assert_eq!(d.sources_manager_selected, 1);
    let mut b = with_sources();
    let mut st2 = sources_state(0);
    b.delete_source(true, 1, &mut st2);
    assert_eq!(b.sources.len(), 3);
    assert_eq!(b.status_message, Some(("Database is read-only; cannot delete sources".to_string(), true)));
}

#[test]
fn creating_a_source_checks_then_lists_it() {
    let mut d = with_sources();
    assert_eq!(d.begin_source_create(true, Some(1), "/data/new", ""), None);
    assert_eq!(d.status_message, Some(("Database is read-only; cannot create sources".to_string(), true)));
    assert_eq!(d.begin_source_create(false, None, "/data/new", ""), None);
    assert_eq!(d.status_message, Some(("No workspace selected; cannot create source".to_string(), true)));
    assert_eq!(d.begin_source_create(false, Some(1), "/data/beta", "  "), None);
    assert_eq!(d.status_message, Some(("Source name 'beta' already exists".to_string(), true)));
    let name = d.begin_source_create(false, Some(1), "/data/new", " fresh ").unwrap();
    assert_eq!(name, "fresh");
    assert_eq!(d.begin_source_create(false, Some(1), "/data/newer", "").unwrap(), "newer");
    let mut st = sources_state(0);
    d.finish_source_create(1, 42, name, "/data/new".to_string(), &mut st);
    assert_eq!(d.sources.len(), 4);
    assert_eq!(d.sources[3].id, 42);
    assert_eq!(d.selected_source_id, Some(42));
    assert_eq!(st.selected_index, 3);
    assert_eq!(d.pending_source_creates.len(), 1);
    assert_eq!(d.pending_source_creates[0].path, "/data/new");
    assert_eq!(d.status_message, Some(("Created source 'fresh'".to_string(), false)));
    assert!(d.has_pending_writes());
    let w = d.take_pending_writes();
    assert_eq!(w.source_creates.len(), 1);
    assert!(w.sources_changed());
}

#[test]
fn rules_are_named_by_pattern_and_tag() {
    assert_eq!(casparian_tui::write_queue::rule_name("**/*.csv", "csv"), "**/*.csv \u{2192} csv");
}

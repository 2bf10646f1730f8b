use casparian_tui::discover::{DiscoverViewState, RuleDialogFocus, RuleId, SourceInfo};
use casparian_tui::discover_state::DiscoverState;

fn source(id: i64, name: &str) -> SourceInfo {
    SourceInfo { id, name: name.to_string(), path: format!("/data/{}", name), file_count: 0 }
}

fn state_with(ids: &[i64]) -> DiscoverState {
    let mut s = DiscoverState::default();
    s.sources = ids.iter().map(|id| source(*id, &format!("s{}", id))).collect();
    s
}

#[test]
fn selection_by_index_round_trip() {
    let mut s = state_with(&[10, 20, 30]);
    s.select_source_by_index(2);
    assert_eq!(s.selected_source_id, Some(30));
    assert_eq!(s.selected_source_index(), 2);
    assert_eq!(s.selected_source().map(|x| x.id), Some(30));
}

#[test]
fn selection_past_end_clears() {
    let mut s = state_with(&[10, 20]);
    s.select_source_by_index(1);
    s.select_source_by_index(5);
    assert_eq!(s.selected_source_id, None);
    assert_eq!(s.selected_source_index(), 0);
    assert!(s.selected_source().is_none());
}

#[test]
fn unknown_selection_reads_as_first() {
    let mut s = state_with(&[10, 20]);
    s.selected_source_id = Some(99);
    assert_eq!(s.selected_source_index(), 0);
    assert!(s.selected_source().is_none());
}

#[test]
fn validate_selection_repairs() {
    let mut s = state_with(&[10, 20]);
    s.validate_source_selection();
    assert_eq!(s.selected_source_id, Some(10));
    s.selected_source_id = Some(20);
    s.validate_source_selection();
    assert_eq!(s.selected_source_id, Some(20));
    s.selected_source_id = Some(77);
    s.validate_source_selection();
    assert_eq!(s.selected_source_id, Some(10));
    let mut empty = state_with(&[]);
    empty.selected_source_id = Some(10);
    empty.validate_source_selection();
    assert_eq!(empty.selected_source_id, None);
}

#[test]
fn dialogs_and_shortcuts() {
    let mut s = state_with(&[10, 20]);
    s.select_source_by_index(1);
    s.sources_filter = "x".to_string();
    s.panel_shortcut('S');
    assert_eq!(s.view_state, DiscoverViewState::SourcesDropdown);
    assert_eq!(s.previous_view_state, Some(DiscoverViewState::Files));
    assert_eq!(s.sources_filter, "");
    assert_eq!(s.preview_source, Some(1));
    s.return_to_previous_state();
    assert_eq!(s.view_state, DiscoverViewState::Files);
    assert_eq!(s.previous_view_state, None);
    s.selected_tag = Some(2);
    s.panel_shortcut('T');
    assert_eq!(s.view_state, DiscoverViewState::TagsDropdown);
    assert_eq!(s.preview_tag, Some(2));
    s.panel_shortcut('x');
    assert_eq!(s.view_state, DiscoverViewState::TagsDropdown);

    let mut d = state_with(&[]);
    d.transition_state(DiscoverViewState::RuleCreation);
    d.rule_pattern_input = "**/*.csv".to_string();
    d.rule_tag_input = "csv".to_string();
    d.rule_preview_files = vec!["a.csv".to_string()];
    d.rule_preview_count = 1;
    d.rule_dialog_focus = RuleDialogFocus::Tag;
    d.editing_rule_id = Some(RuleId::new(3));
    d.close_rule_dialog();
    assert_eq!(d.view_state, DiscoverViewState::Files);
    assert_eq!(d.rule_pattern_input, "");
    assert!(d.rule_preview_files.is_empty());
    assert_eq!(d.rule_preview_count, 0);
    assert_eq!(d.rule_dialog_focus, RuleDialogFocus::Pattern);
    assert!(d.editing_rule_id.is_none());
}

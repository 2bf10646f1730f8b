use casparian_tui::backend::BackendRouter;
use casparian_tui::discover::SourceInfo;
use casparian_tui::discover_state::DiscoverState;
use casparian_tui::tag_requests::ApplyTarget;

fn with_source() -> DiscoverState {
    let mut d = DiscoverState::default();
    d.sources = vec![SourceInfo { id: 5, name: "s".to_string(), path: "/s".to_string(), file_count: 0 }];
    d
}

#[test]
fn manual_tagging_starts_when_everything_is_there() {
    let mut d = with_source();
    let r = d.begin_tag_apply(Some(7), 12, "sales", true, false, true);
    assert_eq!(r, Some(ApplyTarget { workspace_id: 7, source_id: 5 }));
    assert_eq!(d.status_message, Some(("Tagging 12 files with 'sales'".to_string(), false)));
}

#[test]
fn manual_tagging_says_why_not() {
    let mut d = with_source();
    assert_eq!(d.begin_tag_apply(None, 12, "t", true, false, true), None);
    assert_eq!(d.status_message, Some(("No workspace selected; cannot apply tags".to_string(), true)));
    let mut e = DiscoverState::default();
    e.begin_tag_apply(Some(7), 12, "t", true, false, true);
    assert_eq!(e.status_message, Some(("No source selected; cannot apply tags".to_string(), true)));
    d.begin_tag_apply(Some(7), 0, "t", true, false, true);
    assert_eq!(d.status_message, Some(("No preview results to tag".to_string(), true)));
    d.begin_tag_apply(Some(7), 1, "t", false, false, true);
    assert_eq!(d.status_message, Some(("Sentinel not connected; cannot apply tags".to_string(), true)));
    d.begin_tag_apply(Some(7), 1, "t", true, true, true);
    assert_eq!(d.status_message, Some(("Tagging already in progress".to_string(), true)));
    d.begin_tag_apply(Some(7), 1, "t", true, false, false);
    assert_eq!(d.status_message, Some(("Control API address not configured".to_string(), true)));
}

#[test]
fn rule_apply_checks_writes_first() {
    let router = BackendRouter::new(None, false, true);
    let mut d = with_source();
    assert_eq!(d.begin_rule_apply(&router, false, Some(7), "**/*.csv", "csv", false), None);
    assert_eq!(d.scan_error.as_deref(), Some("Database is read-only; cannot apply rules"));
    assert_eq!(d.status_message, Some(("Database is read-only; cannot apply rules".to_string(), true)));
}

#[test]
fn rule_apply_starts_through_control() {
    let router = BackendRouter::new(Some("tcp://127.0.0.1:5555".to_string()), false, false);
    let mut d = with_source();
    d.selected_source_id = Some(9);
    let r = d.begin_rule_apply(&router, true, Some(7), "**/*.csv", "csv", false);
    assert_eq!(r, Some(ApplyTarget { workspace_id: 7, source_id: 9 }));
    assert_eq!(d.status_message, Some(("Applying rule: **/*.csv \u{2192} csv".to_string(), false)));
    d.begin_rule_apply(&router, true, Some(7), "a", "b", true);
    assert_eq!(d.status_message, Some(("Rule apply already in progress".to_string(), true)));
    let offline = BackendRouter::new(None, true, false);
    d.begin_rule_apply(&offline, false, Some(7), "a", "b", false);
    assert_eq!(d.status_message, Some(("Sentinel not connected; cannot apply rules".to_string(), true)));
}

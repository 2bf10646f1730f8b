use casparian_tui::command_palette::{CommandPaletteMode, CommandPaletteState};
use casparian_tui::extraction::FieldSource;
use casparian_tui::flow::FlowAssertion;
use casparian_tui::flow_assert::assert_flow;

#[test]
fn assertion_passes_iff_patterns_behave() {
    let mut a = FlowAssertion::default();
    a.plain_contains = vec!["hello".to_string()];
    assert!(assert_flow(&a, "hello world", "", "", "").is_ok());
    a.plain_not_contains = vec!["world".to_string(), "nothing".to_string()];
    let e = assert_flow(&a, "hello world", "", "", "").unwrap_err();
    assert_eq!(e.failures.len(), 1);
    a.plain_contains.push("(".to_string());
    let e = assert_flow(&a, "hello world", "", "", "").unwrap_err();
    assert_eq!(e.failures.len(), 2);
}

#[test]
fn field_sources_round_trip_through_the_database() {
    for s in [FieldSource::Segment(-3), FieldSource::Segment(i32::MIN), FieldSource::Segment(i32::MAX), FieldSource::Filename, FieldSource::FullPath, FieldSource::RelPath] {
        let (t, v) = s.to_db_format();
        assert_eq!(FieldSource::from_db_format(t, v.as_deref()), Some(s));
    }
    assert_eq!(FieldSource::from_db_format("segment", None), None);
    assert_eq!(FieldSource::from_db_format("segment", Some("x")), None);
    assert_eq!(FieldSource::from_db_format("other", None), None);
}

#[test]
fn opened_palette_lists() {
    let mut p = CommandPaletteState::new();
    p.open(CommandPaletteMode::Command);
    let texts: Vec<&str> = p.suggestions.iter().map(|s| s.text.as_str()).collect();
    assert_eq!(texts, vec!["/scan", "/query", "/approve", "/workspace", "/quarantine", "/catalog", "/pipelines", "/jobs", "/help"]);
    let mut q = CommandPaletteState::new();
    q.recent_intents = (0..10).map(|i| format!("intent {}", i)).collect();
    q.open(CommandPaletteMode::Intent);
    assert_eq!(q.suggestions.len(), 10);
    let mut r = CommandPaletteState::new();
    r.recent_intents = vec!["a".to_string()];
    r.open(CommandPaletteMode::Intent);
    assert_eq!(r.suggestions.len(), 3);
}

use casparian_tui::action_bar::{format_help_lines, hint_width, layout_hints, pack_items, ActionHint, LayoutItem};
use casparian_tui::approvals::{
    ApprovalDisplayStatus, ApprovalInfo, ApprovalOperationType, ApprovalStatusFilter, ApprovalsState,
};
use casparian_tui::backend::{BackendError, BackendRouter, MutationRoute};
use casparian_tui::command_palette::{CommandAction, CommandPaletteMode, CommandPaletteState};
use casparian_tui::discover::{handle_text_input, FsEntry, GlobFileCount, RuleId, TextInputResult};
use casparian_tui::flow::{FlowKey, FlowKeyCode, FlowModifiers};
use casparian_tui::jobs::JobsViewState;
use casparian_tui::keymap::{global_actions, home_actions, jobs_actions, ordered_hints, query_actions};
use casparian_tui::layout::{centered_area, scrim_area, viewport_class, Area, ViewportClass};
use casparian_tui::list_view::scroll_offset;
use casparian_tui::query::{QueryState, QueryViewState};
use casparian_tui::scan_progress::{flush_batch, progress_update_due};
use casparian_tui::sessions::{SessionInfo, SessionsState, SessionsViewState};
use casparian_tui::tabs::TuiMode;

#[test]
fn test_virtual_scroll_offset_calculation() {
    let file_count: usize = 10_000;
    let visible_rows: usize = 30;

    let selected: usize = 5;
    assert_eq!(scroll_offset(file_count, visible_rows, selected), 0, "Near start should show from beginning");

    let selected: usize = 5000;
    assert_eq!(scroll_offset(file_count, visible_rows, selected), 5000 - 15, "Middle should center selection");

    let selected: usize = 9990;
    assert_eq!(
        scroll_offset(file_count, visible_rows, selected),
        file_count - visible_rows,
        "Near end should show last rows"
    );
}

#[test]
fn test_small_list_no_scroll() {
    let file_count: usize = 20;
    let visible_rows: usize = 50;
    for selected in 0..file_count {
        let offset = scroll_offset(file_count, visible_rows, selected);
        assert_eq!(offset, 0, "Small list should never scroll, but got offset {} for selected {}", offset, selected);
    }
}

#[test]
fn scroll_keeps_selection_visible() {
    for selected in 0..10usize {
        let offset = scroll_offset(10, 4, selected);
        assert!(offset <= selected && selected < offset + 4);
    }
    // An odd window centred near the end runs one row past it.
    assert_eq!(scroll_offset(10, 3, 9), 8);
}

#[test]
fn test_progress_update_no_overflow() {
    let c: usize = 50;
    let l: usize = 0;
    assert!(!progress_update_due(c, l));

    let stale_count: usize = 50;
    let updated_last: usize = 150;
    assert_eq!(stale_count.saturating_sub(updated_last), 0);
    assert!(!progress_update_due(stale_count, updated_last));

    let c: usize = 250;
    let l: usize = 150;
    assert_eq!(c.saturating_sub(l), 100);
    assert!(progress_update_due(c, l));
}

#[test]
fn test_batch_flush_guard_behavior() {
    let mut all_batches: Vec<Vec<i32>> = Vec::new();
    let mut total_count: usize = 0;
    let mut batch: Vec<i32> = Vec::new();
    for i in 0..50 {
        batch.push(i);
    }
    flush_batch(&mut batch, &mut all_batches, &mut total_count);

    assert_eq!(all_batches.len(), 1, "Should have one batch");
    assert_eq!(all_batches[0].len(), 50, "Batch should have 50 items");
    assert_eq!(total_count, 50, "Total count should be 50");

    // An empty batch adds nothing.
    flush_batch(&mut batch, &mut all_batches, &mut total_count);
    assert_eq!(all_batches.len(), 1);
    assert_eq!(total_count, 50);
}

fn approval(id: &str, status: ApprovalDisplayStatus, expires_at: i64) -> ApprovalInfo {
    ApprovalInfo {
        id: id.to_string(),
        operation_type: ApprovalOperationType::Run,
        plugin_ref: "parser".to_string(),
        summary: "run".to_string(),
        status,
        created_at: 0,
        expires_at,
        file_count: Some(3),
        input_dir: Some("/data".to_string()),
        job_id: None,
    }
}

#[test]
fn approval_status_parsing_and_text() {
    assert_eq!(ApprovalDisplayStatus::from_db_str("APPROVED"), ApprovalDisplayStatus::Approved);
    assert_eq!(ApprovalDisplayStatus::from_db_str("Expired"), ApprovalDisplayStatus::Expired);
    assert_eq!(ApprovalDisplayStatus::from_db_str("weird"), ApprovalDisplayStatus::Pending);
    assert_eq!(ApprovalDisplayStatus::from_lowercased("rejected"), ApprovalDisplayStatus::Rejected);
    assert_eq!(ApprovalDisplayStatus::Approved.as_str(), "approved");
    assert_eq!(ApprovalDisplayStatus::Expired.symbol(), "⊘");
    assert_eq!(ApprovalOperationType::from_db_str("Schema_Promote"), ApprovalOperationType::SchemaPromote);
    assert_eq!(ApprovalOperationType::from_db_str("SchemaPromote"), ApprovalOperationType::SchemaPromote);
    assert_eq!(ApprovalOperationType::from_db_str("other"), ApprovalOperationType::Run);
    assert_eq!(ApprovalOperationType::SchemaPromote.as_str(), "SchemaPromote");
    let mut f = ApprovalStatusFilter::Pending;
    for _ in 0..5 {
        f = f.next();
    }
    assert_eq!(f, ApprovalStatusFilter::Pending);
    assert_eq!(ApprovalStatusFilter::All.as_str(), "All");
    assert!(ApprovalDisplayStatus::Rejected.matches_filter(ApprovalStatusFilter::All));
    assert!(!ApprovalDisplayStatus::Rejected.matches_filter(ApprovalStatusFilter::Pending));
}

#[test]
fn approval_countdown() {
    let a = approval("a", ApprovalDisplayStatus::Pending, 1_000_000);
    assert_eq!(a.time_until_expiry_at(1_000_000 - 45_500), Some(45_500));
    assert_eq!(a.expiry_countdown_at(1_000_000 - 45_500), "45s");
    assert_eq!(a.expiry_countdown_at(1_000_000 - 12 * 60_000), "12m");
    assert_eq!(a.expiry_countdown_at(1_000_000 - (3 * 3600 + 5 * 60) * 1000), "3h5m");
    assert_eq!(a.expiry_countdown_at(1_000_000), "expired");
    let done = approval("b", ApprovalDisplayStatus::Approved, 1_000_000);
    assert_eq!(done.time_until_expiry_at(0), None);
    assert_eq!(done.expiry_countdown_at(0), "-");
    assert!(a.is_pending() && !done.is_pending());
}

#[test]
fn approvals_filtering_selection_and_stats() {
    let mut state = ApprovalsState::default();
    state.approvals = vec![
        approval("a", ApprovalDisplayStatus::Pending, 10),
        approval("b", ApprovalDisplayStatus::Approved, 10),
        approval("c", ApprovalDisplayStatus::Pending, 10),
        approval("d", ApprovalDisplayStatus::Expired, 10),
    ];
    let ids: Vec<&str> = state.filtered_approvals().iter().map(|a| a.id.as_str()).collect();
    assert_eq!(ids, vec!["a", "c"]);
    state.selected_index = 7;
    state.clamp_selection();
    assert_eq!(state.selected_index, 1);
    assert_eq!(state.selected_approval().unwrap().id, "c");
    state.pinned_approval_id = Some("d".to_string());
    assert_eq!(state.selected_approval().unwrap().id, "d");
    assert_eq!(state.stats(), (2, 1, 0, 1));
}

fn key(code: FlowKeyCode, ctrl: bool) -> FlowKey {
    FlowKey { code, modifiers: FlowModifiers { ctrl, alt: false, shift: false } }
}

#[test]
fn command_palette_editing() {
    let mut p = CommandPaletteState::new();
    p.open(CommandPaletteMode::Command);
    assert!(p.visible);
    assert_eq!(p.suggestions.len(), 9);
    p.insert_char('j');
    p.insert_char('b');
    p.cursor_left();
    p.insert_char('o');
    assert_eq!(p.input, "job");
    assert_eq!(p.cursor, 2);
    assert_eq!(p.suggestions.len(), 1);
    assert_eq!(p.suggestions[0].text, "/jobs");
    match p.selected_action() {
        Some(CommandAction::RunCommand(c)) => assert_eq!(c, "/jobs"),
        _ => panic!("expected a command"),
    }
    p.backspace();
    assert_eq!(p.input, "jb");
    p.cursor_end();
    p.delete();
    assert_eq!(p.input, "jb");
    p.cursor_home();
    p.delete();
    assert_eq!(p.input, "b");
    p.clear_input();
    assert_eq!(p.input, "");
    p.close();
    assert!(!p.visible && p.suggestions.is_empty());
}

#[test]
fn command_palette_intent_and_navigation() {
    let mut p = CommandPaletteState::new();
    p.add_to_history("find sales".to_string());
    p.add_to_history("scan data".to_string());
    p.add_to_history("find sales".to_string());
    assert_eq!(p.recent_intents, vec!["find sales".to_string(), "scan data".to_string()]);
    p.open(CommandPaletteMode::Intent);
    // Empty input: both recent intents and two examples.
    assert_eq!(p.suggestions.len(), 4);
    assert_eq!(p.suggestions[0].text, "Recent: \"find sales\"");
    p.insert_char('S');
    p.insert_char('A');
    // "SA" matches "find sales" case-insensitively, not "scan data".
    assert_eq!(p.suggestions.len(), 2);
    assert_eq!(p.suggestions[0].text, "Find: \"SA\"");
    assert_eq!(p.suggestions[1].text, "Recent: \"find sales\"");
    p.select_next();
    assert_eq!(p.selected_suggestion, 1);
    p.select_next();
    assert_eq!(p.selected_suggestion, 1);
    p.select_prev();
    assert_eq!(p.selected_suggestion, 0);
    p.cycle_mode();
    p.cycle_mode();
    assert_eq!(p.mode, CommandPaletteMode::Navigation);
    p.clear_input();
    p.insert_char('r');
    let labels: Vec<&str> = p.suggestions.iter().map(|s| s.text.as_str()).collect();
    assert_eq!(labels, vec!["Run", "Review", "Query"]);
    match p.selected_action() {
        Some(CommandAction::Navigate(m)) => assert_eq!(*m, TuiMode::Run),
        _ => panic!("expected navigation"),
    }
    assert_eq!(CommandPaletteMode::Navigation.indicator(), "@");
    assert_eq!(CommandPaletteMode::Navigation.name(), "Navigate");
}

#[test]
fn command_palette_history_keeps_ten() {
    let mut p = CommandPaletteState::new();
    for i in 0..12 {
        p.add_to_history(format!("intent {}", i));
    }
    assert_eq!(p.recent_intents.len(), 10);
    assert_eq!(p.recent_intents[0], "intent 11");
    assert_eq!(p.recent_intents[9], "intent 2");
}

#[test]
fn query_history_browsing() {
    let mut q = QueryState::default();
    q.add_to_history("  select 1  ");
    q.add_to_history("select 2");
    q.add_to_history("   ");
    q.add_to_history("select 1");
    assert_eq!(q.history, vec!["select 1".to_string(), "select 2".to_string()]);
    q.sql_input = "draft".to_string();
    q.history_prev();
    assert_eq!(q.sql_input, "select 1");
    assert_eq!(q.cursor_position, 8);
    q.history_prev();
    assert_eq!(q.sql_input, "select 2");
    q.history_prev();
    assert_eq!(q.history_index, Some(1));
    q.history_next();
    assert_eq!(q.sql_input, "select 1");
    q.history_next();
    assert_eq!(q.sql_input, "draft");
    assert_eq!(q.history_index, None);
    assert_eq!(q.draft_input, None);
    q.error = Some("x".to_string());
    q.clear_for_new_query();
    assert!(q.error.is_none() && q.results.is_none());
    assert_eq!(q.view_state, QueryViewState::Editing);
}

#[test]
fn query_history_is_bounded() {
    let mut q = QueryState::default();
    for i in 0..105 {
        q.add_to_history(&format!("q{}", i));
    }
    assert_eq!(q.history.len(), 100);
    assert_eq!(q.history[0], "q104");
}

#[test]
fn sessions_navigation() {
    let mut s = SessionsState::default();
    s.sessions = vec![SessionInfo {
        id: "s1".to_string(),
        intent: "find".to_string(),
        state_label: "new".to_string(),
        created_at: 0,
        file_count: 0,
        pending_gate: None,
    }];
    s.selected_index = 4;
    assert!(s.selected_session().is_none());
    s.clamp_selection();
    assert_eq!(s.selected_session().unwrap().id, "s1");
    s.transition_state(SessionsViewState::GateApproval);
    assert_eq!(s.previous_view_state, Some(SessionsViewState::SessionList));
    s.return_to_previous_state();
    assert_eq!(s.view_state, SessionsViewState::SessionList);
    s.return_to_previous_state();
    assert_eq!(s.view_state, SessionsViewState::SessionList);
}

#[test]
fn fs_entries_and_counts() {
    let f = FsEntry::with_path("data/*.csv".to_string(), Some("data".to_string()), 4, false);
    assert_eq!(f.name(), "data/*.csv");
    assert_eq!(f.nav_path(), Some("data"));
    assert_eq!(f.path(), Some("data"));
    assert_eq!(f.file_count(), 4);
    assert!(!f.is_file());
    let g = FsEntry::file("a.txt".to_string(), 1);
    assert_eq!(g.nav_path(), Some("a.txt"));
    assert_eq!(g.path(), None);
    assert!(g.is_file());
    let l = FsEntry::loading("Loading...");
    assert_eq!(l.name(), "Loading...");
    assert_eq!(l.file_count(), 0);
    assert_eq!(l.nav_path(), None);
    assert!(FsEntry::new("d".to_string(), 2, false).nav_path() == Some("d"));
    assert_eq!(GlobFileCount::Estimated(7).value(), 7);
    assert!(RuleId::new(5).is_saved());
    assert!(!RuleId::unsaved().is_saved());
}

#[test]
fn text_input_keys() {
    let mut input = "tag".to_string();
    assert_eq!(handle_text_input(&key(FlowKeyCode::Char('s'), false), &mut input), TextInputResult::Continue);
    assert_eq!(input, "tags");
    assert_eq!(handle_text_input(&key(FlowKeyCode::Backspace, false), &mut input), TextInputResult::Continue);
    assert_eq!(input, "tag");
    assert_eq!(handle_text_input(&key(FlowKeyCode::Char('u'), true), &mut input), TextInputResult::Continue);
    assert_eq!(input, "");
    assert_eq!(handle_text_input(&key(FlowKeyCode::Enter, false), &mut input), TextInputResult::Committed);
    assert_eq!(handle_text_input(&key(FlowKeyCode::Esc, false), &mut input), TextInputResult::Cancelled);
    assert_eq!(handle_text_input(&key(FlowKeyCode::Tab, false), &mut input), TextInputResult::NotHandled);
}

#[test]
fn layout_geometry() {
    assert_eq!(viewport_class(Area { x: 0, y: 0, width: 99, height: 50 }), ViewportClass::Narrow);
    assert_eq!(viewport_class(Area { x: 0, y: 0, width: 120, height: 27 }), ViewportClass::Short);
    assert_eq!(viewport_class(Area { x: 0, y: 0, width: 120, height: 40 }), ViewportClass::Normal);
    let d = centered_area(Area { x: 2, y: 1, width: 100, height: 40 }, 60, 50);
    assert_eq!(d, Area { x: 22, y: 1, width: 60, height: 40 });
    let s = scrim_area(Area { x: 0, y: 0, width: 80, height: 24 }, Area { x: 0, y: 0, width: 80, height: 3 });
    assert_eq!(s, Area { x: 0, y: 3, width: 80, height: 21 });
}

#[test]
fn backend_routing() {
    let offline = BackendRouter::new(None, true, false);
    assert!(!offline.mutations_blocked(false));
    assert_eq!(offline.route_mutation(&None), Ok(MutationRoute::Offline));
    let read_only = BackendRouter::new(None, true, true);
    assert!(read_only.mutations_blocked(false));
    assert!(!read_only.mutations_blocked(true));
    assert_eq!(read_only.route_mutation(&None), Err(BackendError::ReadOnly));
    assert_eq!(read_only.blocked_message("tag files"), "Database is read-only; cannot tag files");
    let remote = BackendRouter::new(Some("tcp://x".to_string()), false, false);
    assert_eq!(remote.route_mutation(&Some(Ok(()))), Ok(MutationRoute::Connected));
    let err = remote.route_mutation(&Some(Err("refused".to_string()))).unwrap_err();
    assert_eq!(err.message(), "Sentinel not reachable: refused");
    assert_eq!(BackendRouter::new(None, false, false).route_mutation(&None), Err(BackendError::ControlNotConfigured));
    assert_eq!(remote.blocked_message("save"), "Sentinel not reachable; cannot save");
}

#[test]
fn action_bar_layout() {
    let hints = vec![
        ActionHint::new("Enter", "Open", 100),
        ActionHint::new("s", "Scan", 95),
        ActionHint::new("?", "Help", 90),
    ];
    assert_eq!(hint_width(&hints[0]), 12);
    // Everything fits on one line.
    let all = layout_hints(&hints, 80, 2);
    assert!(!all.dropped);
    assert_eq!(all.lines, vec![vec![LayoutItem::Hint(0), LayoutItem::Hint(1), LayoutItem::Hint(2)]]);
    // Too narrow for all: the lowest priority goes and "(? more)" appears.
    let some = layout_hints(&hints, 30, 1);
    assert!(some.dropped);
    assert_eq!(some.lines, vec![vec![LayoutItem::Hint(0), LayoutItem::More]]);
    let items = vec![LayoutItem::Hint(0), LayoutItem::Hint(1)];
    assert_eq!(pack_items(&items, &hints, 12, 1), None);
    assert_eq!(
        pack_items(&items, &hints, 12, 2),
        Some(vec![vec![LayoutItem::Hint(0)], vec![LayoutItem::Hint(1)]])
    );
    let lines = format_help_lines(&hints);
    assert_eq!(lines[0], "  Enter Open");
    assert_eq!(lines[1], "  s     Scan");
    let d = ActionHint::disabled("x", "", 1);
    assert!(!d.enabled);
    assert_eq!(hint_width(&d), 3);
}

#[test]
fn keymap_priorities() {
    let hints = ordered_hints(&[("a", "A"), ("b", "B"), ("c", "C")]);
    let prios: Vec<u8> = hints.iter().map(|h| h.priority).collect();
    assert_eq!(prios, vec![100, 95, 90]);
    let home = home_actions();
    assert_eq!(home[0].key, "Enter");
    assert_eq!(home.len(), 6);
    assert_eq!(jobs_actions(JobsViewState::JobList).len(), 14);
    assert_eq!(jobs_actions(JobsViewState::LogViewer)[1].label, "Scroll");
    assert_eq!(query_actions(QueryViewState::Editing, true).len(), 1);
    let global = global_actions(true);
    assert_eq!(global.len(), 16);
    assert_eq!(global[0].key, "Esc");
    assert_eq!(global[0].priority, 110);
    let many: Vec<(&str, &str)> = (0..25).map(|_| ("k", "l")).collect();
    let ranked = ordered_hints(&many);
    assert_eq!(ranked[19].priority, 5);
    assert_eq!(ranked[20].priority, 1);
    assert_eq!(ranked[24].priority, 1);
}

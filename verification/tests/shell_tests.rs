use casparian_tui::approvals::ApprovalsViewState;
use casparian_tui::command_palette::CommandPaletteMode;
use casparian_tui::discover::DiscoverViewState;
use casparian_tui::flow::{FlowKey, FlowKeyCode, FlowModifiers};
use casparian_tui::jobs::JobsViewState;
use casparian_tui::query::QueryViewState;
use casparian_tui::rule_builder::RuleBuilderFocus;
use casparian_tui::sessions::SessionsViewState;
use casparian_tui::shell_keys::{
    effective_actions, route_key, screen_of, text_input_active, view_label, HintContext,
    InputContext, KeyContext, KeyRoute, Screen,
};
use casparian_tui::tabs::{IngestTab, ReviewTab, RunTab, ShellFocus, TuiMode, WorkspaceSwitcherMode};

fn plain(code: FlowKeyCode) -> FlowKey {
    FlowKey { code, modifiers: FlowModifiers { ctrl: false, alt: false, shift: false } }
}

fn ctrl(c: char) -> FlowKey {
    FlowKey { code: FlowKeyCode::Char(c), modifiers: FlowModifiers { ctrl: true, alt: false, shift: false } }
}

fn ctx(mode: TuiMode) -> KeyContext {
    KeyContext {
        workspace_switcher_visible: false,
        command_palette_visible: false,
        show_help: false,
        text_input: false,
        jobs_drawer_open: false,
        sources_drawer_open: false,
        mode,
        ingest_tab: IngestTab::Select,
        run_tab: RunTab::Jobs,
        review_tab: ReviewTab::Triage,
        shell_focus: ShellFocus::Main,
    }
}

#[test]
fn screens_and_labels() {
    assert_eq!(screen_of(TuiMode::Ingest, IngestTab::Sources, RunTab::Jobs, ReviewTab::Triage), Screen::Sources);
    assert_eq!(screen_of(TuiMode::Ingest, IngestTab::Rules, RunTab::Jobs, ReviewTab::Triage), Screen::Discover);
    assert_eq!(screen_of(TuiMode::Run, IngestTab::Rules, RunTab::Outputs, ReviewTab::Triage), Screen::Catalog);
    assert_eq!(screen_of(TuiMode::Review, IngestTab::Rules, RunTab::Jobs, ReviewTab::Sessions), Screen::Sessions);
    assert_eq!(view_label(TuiMode::Run, IngestTab::Select, RunTab::Jobs, ReviewTab::Triage), "Run/Jobs");
    assert_eq!(view_label(TuiMode::Ingest, IngestTab::Select, RunTab::Jobs, ReviewTab::Triage), "Ingest/Scope");
    assert_eq!(view_label(TuiMode::Query, IngestTab::Select, RunTab::Jobs, ReviewTab::Triage), "Query");
}

#[test]
fn view_keys_navigate_from_any_view() {
    for mode in [TuiMode::Home, TuiMode::Run, TuiMode::Query, TuiMode::Settings] {
        let c = ctx(mode);
        assert_eq!(route_key(&c, &plain(FlowKeyCode::Char('1'))), KeyRoute::NavigateTo(TuiMode::Ingest));
        assert_eq!(route_key(&c, &plain(FlowKeyCode::Char('4'))), KeyRoute::NavigateTo(TuiMode::Query));
        assert_eq!(route_key(&c, &plain(FlowKeyCode::Char(','))), KeyRoute::NavigateTo(TuiMode::Settings));
    }
}

#[test]
fn typing_keeps_characters() {
    let mut c = ctx(TuiMode::Query);
    c.text_input = true;
    assert_eq!(route_key(&c, &plain(FlowKeyCode::Char('q'))), KeyRoute::Screen(Screen::Query));
    assert_eq!(route_key(&c, &plain(FlowKeyCode::Char('1'))), KeyRoute::Screen(Screen::Query));
    assert_eq!(route_key(&c, &ctrl('w')), KeyRoute::Screen(Screen::Query));
    assert_eq!(route_key(&c, &ctrl('c')), KeyRoute::Quit);
    assert_eq!(route_key(&c, &ctrl('p')), KeyRoute::OpenPalette(CommandPaletteMode::Command));
}

#[test]
fn overlays_and_help_take_keys() {
    let mut c = ctx(TuiMode::Home);
    c.command_palette_visible = true;
    assert_eq!(route_key(&c, &plain(FlowKeyCode::Char('q'))), KeyRoute::CommandPalette);
    c.workspace_switcher_visible = true;
    assert_eq!(route_key(&c, &plain(FlowKeyCode::Char('q'))), KeyRoute::WorkspaceSwitcher);
    let mut h = ctx(TuiMode::Home);
    h.show_help = true;
    assert_eq!(route_key(&h, &plain(FlowKeyCode::Esc)), KeyRoute::CloseHelp);
    assert_eq!(route_key(&h, &plain(FlowKeyCode::Char('?'))), KeyRoute::CloseHelp);
    assert_eq!(route_key(&h, &plain(FlowKeyCode::Char('q'))), KeyRoute::HelpIgnores);
}

#[test]
fn shell_keys_and_drawers() {
    let c = ctx(TuiMode::Home);
    assert_eq!(route_key(&c, &plain(FlowKeyCode::Char(':'))), KeyRoute::OpenPalette(CommandPaletteMode::Command));
    assert_eq!(route_key(&c, &plain(FlowKeyCode::Char('>'))), KeyRoute::OpenPalette(CommandPaletteMode::Intent));
    assert_eq!(route_key(&c, &ctrl('w')), KeyRoute::OpenWorkspaceSwitcher);
    assert_eq!(route_key(&c, &plain(FlowKeyCode::Char('S'))), KeyRoute::ToggleSourcesDrawer);
    assert_eq!(route_key(&ctx(TuiMode::Ingest), &plain(FlowKeyCode::Char('S'))), KeyRoute::Screen(Screen::Discover));
    let mut d = ctx(TuiMode::Home);
    d.jobs_drawer_open = true;
    assert_eq!(route_key(&d, &plain(FlowKeyCode::Down)), KeyRoute::JobsDrawerDown);
    assert_eq!(route_key(&d, &plain(FlowKeyCode::Esc)), KeyRoute::CloseJobsDrawer);
    let mut s = ctx(TuiMode::Run);
    s.sources_drawer_open = true;
    s.text_input = true;
    assert_eq!(route_key(&s, &plain(FlowKeyCode::Char('n'))), KeyRoute::SourcesDrawerNew);
    let mut src = ctx(TuiMode::Ingest);
    src.ingest_tab = IngestTab::Sources;
    assert_eq!(route_key(&src, &plain(FlowKeyCode::Char('r'))), KeyRoute::Screen(Screen::Sources));
    assert_eq!(route_key(&ctx(TuiMode::Home), &plain(FlowKeyCode::Char('r'))), KeyRoute::Refresh);
    assert_eq!(route_key(&ctx(TuiMode::Home), &plain(FlowKeyCode::Char('H'))), KeyRoute::GoHome);
}

#[test]
fn rail_focus_routes() {
    let mut c = ctx(TuiMode::Home);
    assert_eq!(route_key(&c, &plain(FlowKeyCode::Left)), KeyRoute::FocusRail);
    assert_eq!(route_key(&ctx(TuiMode::Ingest), &plain(FlowKeyCode::Left)), KeyRoute::Screen(Screen::Discover));
    c.shell_focus = ShellFocus::Rail;
    assert_eq!(route_key(&c, &plain(FlowKeyCode::Up)), KeyRoute::RailUp);
    assert_eq!(route_key(&c, &plain(FlowKeyCode::Enter)), KeyRoute::RailEnter);
    assert_eq!(route_key(&c, &plain(FlowKeyCode::Right)), KeyRoute::RailLeave);
    assert_eq!(route_key(&c, &plain(FlowKeyCode::Char('x'))), KeyRoute::RailIgnores);
}

fn input(mode: TuiMode) -> InputContext {
    InputContext {
        command_palette_visible: false,
        workspace_switcher_visible: false,
        workspace_switcher_mode: WorkspaceSwitcherMode::List,
        mode,
        ingest_tab: IngestTab::Select,
        review_tab: ReviewTab::Triage,
        sources_editing: false,
        explorer_filtering: false,
        sources_filtering: false,
        tags_filtering: false,
        discover_view: DiscoverViewState::Files,
        rule_builder_focus: None,
        approvals_view: ApprovalsViewState::List,
        query_view: QueryViewState::ViewingResults,
    }
}

#[test]
fn text_input_decisions() {
    assert!(!text_input_active(&input(TuiMode::Home)));
    let mut q = input(TuiMode::Query);
    assert!(!text_input_active(&q));
    q.query_view = QueryViewState::Editing;
    assert!(text_input_active(&q));
    let mut d = input(TuiMode::Ingest);
    d.discover_view = DiscoverViewState::RuleBuilder;
    d.rule_builder_focus = Some(RuleBuilderFocus::FileList);
    assert!(!text_input_active(&d));
    d.rule_builder_focus = Some(RuleBuilderFocus::ExtractionEdit(2));
    assert!(text_input_active(&d));
    let mut t = input(TuiMode::Ingest);
    t.discover_view = DiscoverViewState::Tagging;
    assert!(text_input_active(&t));
    let mut r = input(TuiMode::Review);
    r.review_tab = ReviewTab::Approvals;
    r.approvals_view = ApprovalsViewState::ConfirmReject;
    assert!(text_input_active(&r));
    let mut w = input(TuiMode::Home);
    w.workspace_switcher_visible = true;
    w.workspace_switcher_mode = WorkspaceSwitcherMode::Creating;
    assert!(text_input_active(&w));
}

#[test]
fn hints_follow_the_screen() {
    let base = HintContext {
        screen: Screen::Home,
        rule_builder_input: false,
        approvals_view: ApprovalsViewState::Detail,
        jobs_view: JobsViewState::LogViewer,
        query_view: QueryViewState::Executing,
        query_executing: true,
        settings_editing: false,
        sessions_view: SessionsViewState::SessionList,
        triage_job_filter_set: false,
    };
    assert_eq!(effective_actions(&base)[0].key, "Enter");
    let jobs = HintContext { screen: Screen::Jobs, ..base };
    let hints = effective_actions(&jobs);
    assert_eq!(hints[1].label, "Scroll");
    let approvals = HintContext { screen: Screen::Approvals, ..base };
    assert!(effective_actions(&approvals).is_empty());
    let query = HintContext { screen: Screen::Query, ..base };
    assert_eq!(effective_actions(&query)[0].label, "Detach");
}

#[test]
fn test_ctrl_c_quits() {
    let c = ctx(TuiMode::Home);
    assert_eq!(route_key(&c, &ctrl('c')), KeyRoute::Quit);
}

#[test]
fn test_mode_switching() {
    let mut c = ctx(TuiMode::Home);
    assert_eq!(route_key(&c, &plain(FlowKeyCode::Char('1'))), KeyRoute::NavigateTo(TuiMode::Ingest));
    c.mode = TuiMode::Ingest;
    assert_eq!(route_key(&c, &plain(FlowKeyCode::Char('2'))), KeyRoute::NavigateTo(TuiMode::Run));
    c.mode = TuiMode::Run;
    assert_eq!(route_key(&c, &plain(FlowKeyCode::Char('3'))), KeyRoute::NavigateTo(TuiMode::Review));
    c.mode = TuiMode::Review;
    assert_eq!(route_key(&c, &plain(FlowKeyCode::Char('4'))), KeyRoute::NavigateTo(TuiMode::Query));
    // Leave query editing so global navigation applies.
    c.mode = TuiMode::Query;
    c.text_input = false;
    assert_eq!(route_key(&c, &plain(FlowKeyCode::Char('5'))), KeyRoute::NavigateTo(TuiMode::Settings));
    c.mode = TuiMode::Settings;
    assert_eq!(route_key(&c, &plain(FlowKeyCode::Char('0'))), KeyRoute::GoHome);
}

#[test]
fn test_jobs_pipeline_toggle_is_not_captured_globally() {
    let mut c = ctx(TuiMode::Run);
    c.run_tab = RunTab::Jobs;
    assert_eq!(route_key(&c, &plain(FlowKeyCode::Char('p'))), KeyRoute::Screen(Screen::Jobs));
}

#[test]
fn test_esc_does_not_leave_run_jobs() {
    let mut c = ctx(TuiMode::Run);
    c.run_tab = RunTab::Jobs;
    assert_eq!(route_key(&c, &plain(FlowKeyCode::Esc)), KeyRoute::Screen(Screen::Jobs));
}

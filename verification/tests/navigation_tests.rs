use casparian_tui::approvals::ApprovalsState;
use casparian_tui::discover::DiscoverViewState;
use casparian_tui::discover_state::DiscoverState;
use casparian_tui::jobs::JobsListSection;
use casparian_tui::jobs_state::JobsState;
use casparian_tui::navigation::{ingest_tab_focus, Navigation, RefreshEffect};
use casparian_tui::rule_builder::RuleBuilderFocus;
use casparian_tui::sessions::SessionsState;
use casparian_tui::shell::HomeState;
use casparian_tui::tabs::{
    CatalogState, CatalogTab, HomeStats, IngestTab, ReviewTab, RunTab, ShellFocus, TriageState,
    TriageTab, TuiMode,
};

fn nav(mode: TuiMode) -> Navigation {
    Navigation {
        mode,
        ingest_tab: IngestTab::Sources,
        run_tab: RunTab::Jobs,
        review_tab: ReviewTab::Triage,
        shell_focus: ShellFocus::Rail,
        inspector_collapsed: false,
        settings_previous_mode: None,
    }
}

fn home() -> HomeState {
    HomeState {
        selected_source_index: 0,
        filter: String::new(),
        filtering: false,
        recent_jobs: vec![],
        last_error: None,
        stats: HomeStats {
            file_count: 0,
            source_count: 0,
            running_jobs: 0,
            pending_jobs: 0,
            failed_jobs: 0,
            parser_count: 0,
            paused_parsers: 0,
        },
        stats_loaded: true,
    }
}

fn catalog() -> CatalogState {
    CatalogState {
        tab: CatalogTab::Pipelines,
        pipelines: None,
        runs: None,
        selected_index: 0,
        previous_mode: None,
        pending_select_run_id: None,
        loaded: true,
        status_message: None,
    }
}

fn triage() -> TriageState {
    TriageState {
        tab: TriageTab::Quarantine,
        quarantine_rows: None,
        schema_mismatches: None,
        dead_letters: None,
        selected_index: 0,
        previous_mode: None,
        job_filter: None,
        loaded: true,
        copied_buffer: None,
        status_message: None,
    }
}

#[test]
fn focus_follows_ingest_tab() {
    assert_eq!(ingest_tab_focus(IngestTab::Select, RuleBuilderFocus::Tag), RuleBuilderFocus::Pattern);
    assert_eq!(ingest_tab_focus(IngestTab::Select, RuleBuilderFocus::Excludes), RuleBuilderFocus::Excludes);
    assert_eq!(ingest_tab_focus(IngestTab::Validate, RuleBuilderFocus::Pattern), RuleBuilderFocus::FileList);
    assert_eq!(ingest_tab_focus(IngestTab::Rules, RuleBuilderFocus::Tag), RuleBuilderFocus::Tag);
}

#[test]
fn opening_select_tab_readies_builder() {
    let mut n = nav(TuiMode::Home);
    let mut d = DiscoverState::default();
    d.selected_source_id = Some(17);
    n.set_ingest_tab(IngestTab::Select, &mut d);
    assert_eq!(n.mode, TuiMode::Ingest);
    assert_eq!(n.ingest_tab, IngestTab::Select);
    assert!(n.inspector_collapsed);
    assert!(d.inspector_defaulted);
    let b = d.rule_builder.as_ref().unwrap();
    assert_eq!(b.pattern, "**/*");
    assert_eq!(b.source_id.as_deref(), Some("17"));
    assert_eq!(b.focus, RuleBuilderFocus::FileList);
    d.rule_builder.as_mut().unwrap().focus = RuleBuilderFocus::Tag;
    n.set_ingest_tab(IngestTab::Select, &mut d);
    assert_eq!(d.rule_builder.as_ref().unwrap().focus, RuleBuilderFocus::Pattern);
    // the inspector default is applied once only
    n.inspector_collapsed = false;
    n.next_task_tab(&mut d);
    assert_eq!(n.ingest_tab, IngestTab::Rules);
    assert!(!n.inspector_collapsed);
    n.next_task_tab(&mut d);
    assert_eq!(d.rule_builder.as_ref().unwrap().focus, RuleBuilderFocus::FileList);
    n.next_task_tab(&mut d);
    assert_eq!(n.ingest_tab, IngestTab::Sources);
    n.prev_task_tab(&mut d);
    assert_eq!(n.ingest_tab, IngestTab::Validate);
}

#[test]
fn task_tabs_cycle_on_run_and_review_only() {
    let mut d = DiscoverState::default();
    let mut n = nav(TuiMode::Run);
    n.next_task_tab(&mut d);
    assert_eq!(n.run_tab, RunTab::Outputs);
    n.prev_task_tab(&mut d);
    assert_eq!(n.run_tab, RunTab::Jobs);
    let mut r = nav(TuiMode::Review);
    r.prev_task_tab(&mut d);
    assert_eq!(r.review_tab, ReviewTab::Sessions);
    let mut q = nav(TuiMode::Query);
    q.next_task_tab(&mut d);
    assert_eq!(q, nav(TuiMode::Query));
    assert!(d.rule_builder.is_none());
}

#[test]
fn settings_remember_where_they_came_from() {
    let mut d = DiscoverState::default();
    let mut n = nav(TuiMode::Run);
    n.navigate_to_mode(TuiMode::Settings, &mut d);
    assert_eq!(n.mode, TuiMode::Settings);
    assert_eq!(n.settings_previous_mode, Some(TuiMode::Run));
    assert_eq!(n.shell_focus, ShellFocus::Main);
    n.navigate_to_mode(TuiMode::Settings, &mut d);
    assert_eq!(n.settings_previous_mode, Some(TuiMode::Run));
    n.ingest_tab = IngestTab::Rules;
    n.navigate_to_mode(TuiMode::Ingest, &mut d);
    assert!(d.rule_builder.is_some());
}

#[test]
fn enter_discover_mode_shows_builder() {
    let mut d = DiscoverState::default();
    let mut n = nav(TuiMode::Home);
    n.enter_discover_mode(&mut d);
    assert_eq!(n.ingest_tab, IngestTab::Select);
    assert_eq!(d.view_state, DiscoverViewState::RuleBuilder);
    assert!(d.rule_builder.is_some());
}

#[test]
fn refresh_marks_the_shown_view() {
    let mut h = home();
    let mut d = DiscoverState::default();
    d.data_loaded = true;
    d.sources_loaded = true;
    let mut j = JobsState::default();
    j.jobs_loaded = true;
    j.selected_index = 4;
    j.section_focus = JobsListSection::Ready;
    j.pinned_job_id = Some(9);
    let mut c = catalog();
    let mut a = ApprovalsState::default();
    let mut s = SessionsState::default();
    let mut t = triage();
    let e = nav(TuiMode::Run).refresh_current_view(&mut h, &mut d, &mut j, &mut c, &mut a, &mut s, &mut t);
    assert_eq!(e, RefreshEffect::RestartJobsPoll);
    assert!(!j.jobs_loaded);
    assert_eq!(j.selected_index, 0);
    assert_eq!(j.section_focus, JobsListSection::Actionable);
    assert_eq!(j.pinned_job_id, None);
    assert!(h.stats_loaded && c.loaded && t.loaded);
    let mut n = nav(TuiMode::Ingest);
    n.ingest_tab = IngestTab::Select;
    let e = n.refresh_current_view(&mut h, &mut d, &mut j, &mut c, &mut a, &mut s, &mut t);
    assert_eq!(e, RefreshEffect::ReloadTags);
    assert!(!d.data_loaded && d.sources_loaded);
    let e = nav(TuiMode::Home).refresh_current_view(&mut h, &mut d, &mut j, &mut c, &mut a, &mut s, &mut t);
    assert_eq!(e, RefreshEffect::Nothing);
    assert!(!h.stats_loaded);
    let mut rv = nav(TuiMode::Review);
    rv.review_tab = ReviewTab::Triage;
    rv.refresh_current_view(&mut h, &mut d, &mut j, &mut c, &mut a, &mut s, &mut t);
    assert!(!t.loaded);
}

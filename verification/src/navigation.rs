//! Moving between screens and their tabs: which screen is shown, which tab
//! of each task screen, where the keyboard focus sits, and what a refresh
//! of the current view marks for reloading.
use vstd::prelude::*;
use crate::approvals::ApprovalsState;
use crate::discover_state::DiscoverState;
use crate::jobs::JobsListSection;
use crate::jobs_state::JobsState;
use crate::rule_builder::{RuleBuilderFocus, RuleBuilderState};
use crate::sessions::SessionsState;
use crate::shell::HomeState;
use crate::tabs::{CatalogState, IngestTab, ReviewTab, RunTab, ShellFocus, TriageState, TuiMode};
use crate::text::{decimal_int, i64_to_decimal, owned};
use crate::glob_pattern::opt_string_view;

verus! {

/// The builder's focus once an Ingest tab is opened: Select keeps the
/// pattern, excludes and file list and otherwise goes to the pattern;
/// Validate goes to the file list; other tabs keep it.
pub open spec fn ingest_focus_spec(tab: IngestTab, focus: RuleBuilderFocus) -> RuleBuilderFocus {
    match tab {
        IngestTab::Select => match focus {
            RuleBuilderFocus::Pattern | RuleBuilderFocus::Excludes | RuleBuilderFocus::ExcludeInput
            | RuleBuilderFocus::FileList => focus,
            _ => RuleBuilderFocus::Pattern,
        },
        IngestTab::Validate => RuleBuilderFocus::FileList,
        _ => focus,
    }
}

/// See `ingest_focus_spec`.
pub fn ingest_tab_focus(tab: IngestTab, focus: RuleBuilderFocus) -> (r: RuleBuilderFocus)
    ensures
        r == ingest_focus_spec(tab, focus),
{
    match tab {
        IngestTab::Select => match focus {
            RuleBuilderFocus::Pattern | RuleBuilderFocus::Excludes | RuleBuilderFocus::ExcludeInput
            | RuleBuilderFocus::FileList => focus,
            _ => RuleBuilderFocus::Pattern,
        },
        IngestTab::Validate => RuleBuilderFocus::FileList,
        _ => focus,
    }
}

/// A builder made ready for a source: fresh, with the pattern `**/*`, for
/// the selected source (its id written in decimal).
pub open spec fn ready_builder(b: RuleBuilderState, source: Option<i64>) -> bool {
    &&& b.starts_fresh()
    &&& b.pattern@ == "**/*"@
    &&& b.tag@ == Seq::<char>::empty()
    &&& b.extractions@.len() == 0
    &&& b.enabled
    &&& b.editing_rule_id is None
    &&& opt_string_view(b.source_id) == match source {
        Some(id) => Some(decimal_int(id as int)),
        None => None,
    }
}

impl DiscoverState {
    /// Makes sure a rule builder exists: when there is none, a fresh one
    /// for the selected source (see `ready_builder`); an existing one stays.
    pub fn ensure_rule_builder_ready(&mut self)
        ensures
            old(self).rule_builder is Some ==> *final(self) == *old(self),
            old(self).rule_builder is None ==> {
                &&& final(self).rule_builder matches Some(b) && ready_builder(
                    b,
                    old(self).selected_source_id,
                )
                &&& *final(self) == (DiscoverState { rule_builder: final(self).rule_builder, ..*old(self) })
            },
    {
        if self.rule_builder.is_none() {
            let source = match self.selected_source_id {
                Some(id) => Some(i64_to_decimal(id)),
                None => None,
            };
            let mut builder = RuleBuilderState::new(source);
            builder.pattern = owned("**/*");
            proof {
                reveal_strlit("**/*");
            }
            self.rule_builder = Some(builder);
        }
    }
}

/// Which screen and tabs are shown, and where the focus sits.
#[derive(Debug, Clone, Copy, PartialEq, Eq, Structural)]
pub struct Navigation {
    pub mode: TuiMode,
    pub ingest_tab: IngestTab,
    pub run_tab: RunTab,
    pub review_tab: ReviewTab,
    pub shell_focus: ShellFocus,
    /// The inspector panel is collapsed
    pub inspector_collapsed: bool,
    /// The screen to go back to when Settings closes
    pub settings_previous_mode: Option<TuiMode>,
}

/// The Discover state after an Ingest tab is opened: the inspector is
/// defaulted, and for tabs other than Sources the builder is made ready and
/// its focus set for the tab (see `ingest_focus_spec`).
pub open spec fn discover_on_tab(old: DiscoverState, new: DiscoverState, tab: IngestTab) -> bool {
    &&& new.inspector_defaulted
    &&& if tab == IngestTab::Sources {
        new == DiscoverState { inspector_defaulted: true, ..old }
    } else {
        &&& new == DiscoverState { inspector_defaulted: true, rule_builder: new.rule_builder, ..old }
        &&& new.rule_builder matches Some(b) && match old.rule_builder {
            Some(ob) => b == RuleBuilderState { focus: ingest_focus_spec(tab, ob.focus), ..ob },
            None => exists|fresh: RuleBuilderState|
                #![trigger ready_builder(fresh, old.selected_source_id)]
                ready_builder(fresh, old.selected_source_id) && b == RuleBuilderState {
                    focus: ingest_focus_spec(tab, fresh.focus),
                    ..fresh
                },
        }
    }
}

impl Navigation {
    /// Opens an Ingest tab: the Ingest screen with that tab; the first time,
    /// the inspector starts collapsed (see `discover_on_tab`).
    pub fn set_ingest_tab(&mut self, tab: IngestTab, discover: &mut DiscoverState)
        ensures
            *final(self) == (Navigation {
                mode: TuiMode::Ingest,
                ingest_tab: tab,
                inspector_collapsed: if old(discover).inspector_defaulted {
                    old(self).inspector_collapsed
                } else {
                    true
                },
                ..*old(self)
            }),
            discover_on_tab(*old(discover), *final(discover), tab),
    {
        self.ingest_tab = tab;
        self.mode = TuiMode::Ingest;
        if !discover.inspector_defaulted {
            self.inspector_collapsed = true;
            discover.inspector_defaulted = true;
        }
        if tab != IngestTab::Sources {
            let ghost mid = *discover;
            discover.ensure_rule_builder_ready();
            let ghost ready = discover.rule_builder;
            match discover.rule_builder.take() {
                Some(mut builder) => {
                    builder.focus = ingest_tab_focus(tab, builder.focus);
                    discover.rule_builder = Some(builder);
                    proof {
                        if mid.rule_builder is None {
                            let fresh = ready->0;
                            assert(ready_builder(fresh, old(discover).selected_source_id));
                        }
                    }
                },
                None => {},
            }
        }
    }

    /// Opens a Run tab.
    pub fn set_run_tab(&mut self, tab: RunTab)
        ensures
            *final(self) == (Navigation { mode: TuiMode::Run, run_tab: tab, ..*old(self) }),
    {
        self.run_tab = tab;
        self.mode = TuiMode::Run;
    }

    /// Opens a Review tab.
    pub fn set_review_tab(&mut self, tab: ReviewTab)
        ensures
            *final(self) == (Navigation { mode: TuiMode::Review, review_tab: tab, ..*old(self) }),
    {
        self.review_tab = tab;
        self.mode = TuiMode::Review;
    }

    /// Moves to the next tab of the task screen shown (Ingest, Run or
    /// Review); elsewhere nothing changes.
    pub fn next_task_tab(&mut self, discover: &mut DiscoverState)
        ensures
            old(self).mode == TuiMode::Ingest ==> final(self).ingest_tab.position() == (old(
                self,
            ).ingest_tab.position() + 1) % 4 && discover_on_tab(
                *old(discover),
                *final(discover),
                final(self).ingest_tab,
            ) && *final(self) == (Navigation {
                ingest_tab: final(self).ingest_tab,
                inspector_collapsed: final(self).inspector_collapsed,
                ..*old(self)
            }),
            old(self).mode == TuiMode::Run ==> *final(self) == (Navigation {
                run_tab: final(self).run_tab,
                ..*old(self)
            }) && final(self).run_tab != old(self).run_tab && *final(discover) == *old(discover),
            old(self).mode == TuiMode::Review ==> final(self).review_tab.position() == (old(
                self,
            ).review_tab.position() + 1) % 3 && *final(self) == (Navigation {
                review_tab: final(self).review_tab,
                ..*old(self)
            }) && *final(discover) == *old(discover),
            !(old(self).mode == TuiMode::Ingest || old(self).mode == TuiMode::Run || old(self).mode
                == TuiMode::Review) ==> *final(self) == *old(self) && *final(discover) == *old(
                discover,
            ),
            old(self).mode == TuiMode::Ingest && old(discover).inspector_defaulted
                ==> final(self).inspector_collapsed == old(self).inspector_collapsed,
    {
        match self.mode {
            TuiMode::Ingest => {
                let tab = self.ingest_tab.next();
                self.set_ingest_tab(tab, discover);
            },
            TuiMode::Run => {
                let tab = self.run_tab.next();
                self.set_run_tab(tab);
            },
            TuiMode::Review => {
                let tab = self.review_tab.next();
                self.set_review_tab(tab);
            },
            _ => {},
        }
    }

    /// Moves to the previous tab of the task screen shown (Ingest, Run or
    /// Review); elsewhere nothing changes.
    pub fn prev_task_tab(&mut self, discover: &mut DiscoverState)
        ensures
            old(self).mode == TuiMode::Ingest ==> final(self).ingest_tab.position() == (old(
                self,
            ).ingest_tab.position() + 3) % 4 && discover_on_tab(
                *old(discover),
                *final(discover),
                final(self).ingest_tab,
            ) && *final(self) == (Navigation {
                ingest_tab: final(self).ingest_tab,
                inspector_collapsed: final(self).inspector_collapsed,
                ..*old(self)
            }),
            old(self).mode == TuiMode::Run ==> *final(self) == (Navigation {
                run_tab: final(self).run_tab,
                ..*old(self)
            }) && final(self).run_tab != old(self).run_tab && *final(discover) == *old(discover),
            old(self).mode == TuiMode::Review ==> final(self).review_tab.position() == (old(
                self,
            ).review_tab.position() + 2) % 3 && *final(self) == (Navigation {
                review_tab: final(self).review_tab,
                ..*old(self)
            }) && *final(discover) == *old(discover),
            !(old(self).mode == TuiMode::Ingest || old(self).mode == TuiMode::Run || old(self).mode
                == TuiMode::Review) ==> *final(self) == *old(self) && *final(discover) == *old(
                discover,
            ),
            old(self).mode == TuiMode::Ingest && old(discover).inspector_defaulted
                ==> final(self).inspector_collapsed == old(self).inspector_collapsed,
    {
        match self.mode {
            TuiMode::Ingest => {
                let tab = self.ingest_tab.prev();
                self.set_ingest_tab(tab, discover);
            },
            TuiMode::Run => {
                let tab = self.run_tab.prev();
                self.set_run_tab(tab);
            },
            TuiMode::Review => {
                let tab = self.review_tab.prev();
                self.set_review_tab(tab);
            },
            _ => {},
        }
    }

    /// Goes to a screen from the navigation rail: the focus returns to the
    /// main panel; Ingest on a tab other than Sources makes the builder
    /// ready; Settings remembers the screen it was opened from.
    pub fn navigate_to_mode(&mut self, mode: TuiMode, discover: &mut DiscoverState)
        ensures
            *final(self) == (Navigation {
                mode,
                shell_focus: ShellFocus::Main,
                settings_previous_mode: if mode == TuiMode::Settings && old(self).mode
                    != TuiMode::Settings {
                    Some(old(self).mode)
                } else {
                    old(self).settings_previous_mode
                },
                ..*old(self)
            }),
            mode == TuiMode::Ingest && old(self).ingest_tab != IngestTab::Sources ==> {
                &&& old(discover).rule_builder is Some ==> *final(discover) == *old(discover)
                &&& old(discover).rule_builder is None ==> (final(discover).rule_builder matches Some(
                    b,
                ) && ready_builder(b, old(discover).selected_source_id))
                &&& old(discover).rule_builder is None ==> *final(discover)
                    == (DiscoverState { rule_builder: final(discover).rule_builder, ..*old(discover) })
            },
            !(mode == TuiMode::Ingest && old(self).ingest_tab != IngestTab::Sources)
                ==> *final(discover) == *old(discover),
    {
        match mode {
            TuiMode::Ingest => {
                self.mode = TuiMode::Ingest;
                if self.ingest_tab != IngestTab::Sources {
                    discover.ensure_rule_builder_ready();
                }
            },
            TuiMode::Settings => {
                if self.mode != TuiMode::Settings {
                    self.settings_previous_mode = Some(self.mode);
                }
                self.mode = TuiMode::Settings;
            },
            _ => {
                self.mode = mode;
            },
        }
        self.shell_focus = ShellFocus::Main;
    }

    /// Opens the rule builder: the Select tab of Ingest (see
    /// `set_ingest_tab`), with Discover showing the builder.
    pub fn enter_discover_mode(&mut self, discover: &mut DiscoverState)
        ensures
            *final(self) == (Navigation {
                mode: TuiMode::Ingest,
                ingest_tab: IngestTab::Select,
                inspector_collapsed: if old(discover).inspector_defaulted {
                    old(self).inspector_collapsed
                } else {
                    true
                },
                ..*old(self)
            }),
            exists|mid: DiscoverState|
                #![trigger discover_on_tab(*old(discover), mid, IngestTab::Select)]
                discover_on_tab(*old(discover), mid, IngestTab::Select) && *final(discover)
                    == (DiscoverState {
                    view_state: crate::discover::DiscoverViewState::RuleBuilder,
                    ..mid
                }),
    {
        self.set_ingest_tab(IngestTab::Select, discover);
        let ghost mid = *discover;
        discover.view_state = crate::discover::DiscoverViewState::RuleBuilder;
        proof {
            assert(discover_on_tab(*old(discover), mid, IngestTab::Select));
        }
    }
}

/// What a refresh asks beyond the flags it clears.
#[derive(Debug, Clone, Copy, PartialEq, Eq, Structural)]
pub enum RefreshEffect {
    Nothing,
    /// The tag list is to be loaded again
    ReloadTags,
    /// The jobs poll is to start over
    RestartJobsPoll,
}

impl Navigation {
    /// Refreshes the view shown by marking its data for reloading: Home's
    /// stats; the sources (Sources tab) or the files, filter results and
    /// tags (other Ingest tabs); the jobs, with the selection back at the
    /// top of the actionable section and nothing pinned, and the poll
    /// started over (Jobs); the outputs; the approvals, sessions or triage
    /// lists. Query and Settings have nothing to refresh.
    pub fn refresh_current_view(
        &self,
        home: &mut HomeState,
        discover: &mut DiscoverState,
        jobs: &mut JobsState,
        catalog: &mut CatalogState,
        approvals: &mut ApprovalsState,
        sessions: &mut SessionsState,
        triage: &mut TriageState,
    ) -> (r: RefreshEffect)
        ensures
            *final(home) == (if self.mode == TuiMode::Home {
                HomeState { stats_loaded: false, ..*old(home) }
            } else {
                *old(home)
            }),
            *final(discover) == (if self.mode == TuiMode::Ingest && self.ingest_tab == IngestTab::Sources {
                DiscoverState { sources_loaded: false, ..*old(discover) }
            } else if self.mode == TuiMode::Ingest {
                DiscoverState { data_loaded: false, db_filtered: false, ..*old(discover) }
            } else {
                *old(discover)
            }),
            *final(jobs) == (if self.mode == TuiMode::Run && self.run_tab == RunTab::Jobs {
                JobsState {
                    jobs_loaded: false,
                    selected_index: 0,
                    section_focus: JobsListSection::Actionable,
                    actionable_index: 0,
                    ready_index: 0,
                    pinned_job_id: None,
                    ..*old(jobs)
                }
            } else {
                *old(jobs)
            }),
            *final(catalog) == (if self.mode == TuiMode::Run && self.run_tab == RunTab::Outputs {
                CatalogState { loaded: false, ..*old(catalog) }
            } else {
                *old(catalog)
            }),
            *final(approvals) == (if self.mode == TuiMode::Review && self.review_tab == ReviewTab::Approvals {
                ApprovalsState { approvals_loaded: false, ..*old(approvals) }
            } else {
                *old(approvals)
            }),
            *final(sessions) == (if self.mode == TuiMode::Review && self.review_tab == ReviewTab::Sessions {
                SessionsState { sessions_loaded: false, ..*old(sessions) }
            } else {
                *old(sessions)
            }),
            *final(triage) == (if self.mode == TuiMode::Review && self.review_tab == ReviewTab::Triage {
                TriageState { loaded: false, ..*old(triage) }
            } else {
                *old(triage)
            }),
            r == (if self.mode == TuiMode::Ingest && self.ingest_tab != IngestTab::Sources {
                RefreshEffect::ReloadTags
            } else if self.mode == TuiMode::Run && self.run_tab == RunTab::Jobs {
                RefreshEffect::RestartJobsPoll
            } else {
                RefreshEffect::Nothing
            }),
    {
        match self.mode {
            TuiMode::Home => {
                home.stats_loaded = false;
                RefreshEffect::Nothing
            },
            TuiMode::Ingest => match self.ingest_tab {
                IngestTab::Sources => {
                    discover.sources_loaded = false;
                    RefreshEffect::Nothing
                },
                _ => {
                    discover.data_loaded = false;
                    discover.db_filtered = false;
                    RefreshEffect::ReloadTags
                },
            },
            TuiMode::Run => match self.run_tab {
                RunTab::Jobs => {
                    jobs.jobs_loaded = false;
                    jobs.selected_index = 0;
                    jobs.section_focus = JobsListSection::Actionable;
                    jobs.actionable_index = 0;
                    jobs.ready_index = 0;
                    jobs.pinned_job_id = None;
                    RefreshEffect::RestartJobsPoll
                },
                RunTab::Outputs => {
                    catalog.loaded = false;
                    RefreshEffect::Nothing
                },
            },
            TuiMode::Review => {
                match self.review_tab {
                    ReviewTab::Approvals => {
                        approvals.approvals_loaded = false;
                    },
                    ReviewTab::Sessions => {
                        sessions.sessions_loaded = false;
                    },
                    ReviewTab::Triage => {
                        triage.loaded = false;
                    },
                }
                RefreshEffect::Nothing
            },
            _ => RefreshEffect::Nothing,
        }
    }
}

} // verus!

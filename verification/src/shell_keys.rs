//! The shell around the screens: which screen a mode and its tabs show, the
//! label of the current view, where a key goes before any screen sees it,
//! and the key hints of the current screen.
use vstd::prelude::*;
use crate::action_bar::ActionHint;
use crate::approvals::ApprovalsViewState;
use crate::command_palette::CommandPaletteMode;
use crate::flow::{FlowKey, FlowKeyCode};
use crate::jobs::JobsViewState;
use crate::keymap::{
    approvals_actions, approvals_hints, catalog_actions, catalog_hints, discover_actions,
    discover_hints, home_actions, home_hints, jobs_actions, jobs_hints, query_actions, query_hints,
    sessions_actions, sessions_hints, settings_actions, settings_hints, sources_actions,
    sources_hints, triage_actions, triage_hints,
};
use crate::discover::DiscoverViewState;
use crate::query::QueryViewState;
use crate::rule_builder::RuleBuilderFocus;
use crate::sessions::SessionsViewState;
use crate::tabs::{IngestTab, ReviewTab, RunTab, ShellFocus, TuiMode, WorkspaceSwitcherMode};
use crate::text::{owned, push_str};

verus! {

/// The screen in the main area.
#[derive(Debug, Clone, Copy, PartialEq, Eq, Structural)]
pub enum Screen {
    Home,
    Sources,
    Discover,
    Jobs,
    Catalog,
    Triage,
    Approvals,
    Sessions,
    Query,
    Settings,
}

/// The screen a mode shows with its tabs: Ingest shows the sources list on
/// its Sources tab and the discover screen on the others.
pub open spec fn screen_spec(mode: TuiMode, ingest: IngestTab, run: RunTab, review: ReviewTab) -> Screen {
    match mode {
        TuiMode::Home => Screen::Home,
        TuiMode::Ingest => if ingest == IngestTab::Sources {
            Screen::Sources
        } else {
            Screen::Discover
        },
        TuiMode::Run => match run {
            RunTab::Jobs => Screen::Jobs,
            RunTab::Outputs => Screen::Catalog,
        },
        TuiMode::Review => match review {
            ReviewTab::Triage => Screen::Triage,
            ReviewTab::Approvals => Screen::Approvals,
            ReviewTab::Sessions => Screen::Sessions,
        },
        TuiMode::Query => Screen::Query,
        TuiMode::Settings => Screen::Settings,
    }
}

pub fn screen_of(mode: TuiMode, ingest: IngestTab, run: RunTab, review: ReviewTab) -> (r: Screen)
    ensures
        r == screen_spec(mode, ingest, run, review),
{
    match mode {
        TuiMode::Home => Screen::Home,
        TuiMode::Ingest => if ingest == IngestTab::Sources {
            Screen::Sources
        } else {
            Screen::Discover
        },
        TuiMode::Run => match run {
            RunTab::Jobs => Screen::Jobs,
            RunTab::Outputs => Screen::Catalog,
        },
        TuiMode::Review => match review {
            ReviewTab::Triage => Screen::Triage,
            ReviewTab::Approvals => Screen::Approvals,
            ReviewTab::Sessions => Screen::Sessions,
        },
        TuiMode::Query => Screen::Query,
        TuiMode::Settings => Screen::Settings,
    }
}

/// "Home", "Query", "Settings", or the mode and its tab, as "Run/Jobs".
pub open spec fn view_label_spec(mode: TuiMode, ingest: IngestTab, run: RunTab, review: ReviewTab) -> Seq<
    char,
> {
    match mode {
        TuiMode::Home => "Home"@,
        TuiMode::Ingest => "Ingest/"@ + ingest.label_spec(),
        TuiMode::Run => "Run/"@ + run.label_spec(),
        TuiMode::Review => "Review/"@ + review.label_spec(),
        TuiMode::Query => "Query"@,
        TuiMode::Settings => "Settings"@,
    }
}

/// The label of the current view.
pub fn view_label(mode: TuiMode, ingest: IngestTab, run: RunTab, review: ReviewTab) -> (r: String)
    ensures
        r@ == view_label_spec(mode, ingest, run, review),
{
    match mode {
        TuiMode::Home => owned("Home"),
        TuiMode::Ingest => {
            let mut s = owned("Ingest/");
            push_str(&mut s, ingest.label());
            s
        },
        TuiMode::Run => {
            let mut s = owned("Run/");
            push_str(&mut s, run.label());
            s
        },
        TuiMode::Review => {
            let mut s = owned("Review/");
            push_str(&mut s, review.label());
            s
        },
        TuiMode::Query => owned("Query"),
        TuiMode::Settings => owned("Settings"),
    }
}

/// What the shell knows when a key arrives.
#[derive(Debug, Clone, Copy, PartialEq, Eq, Structural)]
pub struct KeyContext {
    pub workspace_switcher_visible: bool,
    pub command_palette_visible: bool,
    pub show_help: bool,
    /// A text field has the input
    pub text_input: bool,
    pub jobs_drawer_open: bool,
    pub sources_drawer_open: bool,
    pub mode: TuiMode,
    pub ingest_tab: IngestTab,
    pub run_tab: RunTab,
    pub review_tab: ReviewTab,
    pub shell_focus: ShellFocus,
}

/// Where a key goes.
#[derive(Debug, Clone, Copy, PartialEq, Eq, Structural)]
pub enum KeyRoute {
    /// The open workspace switcher takes it
    WorkspaceSwitcher,
    /// The open command palette takes it
    CommandPalette,
    /// Closes the help overlay
    CloseHelp,
    /// The help overlay swallows it
    HelpIgnores,
    OpenPalette(CommandPaletteMode),
    OpenWorkspaceSwitcher,
    Quit,
    NavigateTo(TuiMode),
    PrevTab,
    NextTab,
    ToggleInspector,
    ToggleJobsDrawer,
    ToggleSourcesDrawer,
    JobsDrawerUp,
    JobsDrawerDown,
    /// Opens the jobs screen at the drawer's job
    JobsDrawerOpen,
    CloseJobsDrawer,
    SourcesDrawerUp,
    SourcesDrawerDown,
    /// Opens the sources screen at the drawer's source
    SourcesDrawerOpen,
    SourcesDrawerScan,
    SourcesDrawerEdit,
    SourcesDrawerDelete,
    SourcesDrawerNew,
    CloseSourcesDrawer,
    GoHome,
    Refresh,
    ToggleHelp,
    RailUp,
    RailDown,
    /// Goes to the mode of the rail's item
    RailEnter,
    /// Gives the focus back to the main area
    RailLeave,
    /// The focused rail swallows it
    RailIgnores,
    /// Moves the focus to the rail
    FocusRail,
    /// The screen's own handler takes it
    Screen(Screen),
}

pub open spec fn is_char(key: FlowKey, c: char) -> bool {
    key.code == FlowKeyCode::Char(c)
}

/// The shell's own keys, in order: the view keys and the overlays' openers
/// when no text is being typed, Ctrl+P, Ctrl+C, then the drawers' keys while
/// a drawer is open. `None`: not one of them.
pub open spec fn shell_key(ctx: KeyContext, key: FlowKey) -> Option<KeyRoute> {
    let typing = ctx.text_input;
    let ctrl = key.modifiers.ctrl;
    if is_char(key, ':') && !typing {
        Some(KeyRoute::OpenPalette(CommandPaletteMode::Command))
    } else if is_char(key, 'p') && ctrl {
        Some(KeyRoute::OpenPalette(CommandPaletteMode::Command))
    } else if is_char(key, 'w') && ctrl {
        // Ctrl+W does nothing while typing, and goes no further
        if !typing {
            Some(KeyRoute::OpenWorkspaceSwitcher)
        } else {
            Some(KeyRoute::Screen(screen_spec(ctx.mode, ctx.ingest_tab, ctx.run_tab, ctx.review_tab)))
        }
    } else if is_char(key, '>') && !typing {
        Some(KeyRoute::OpenPalette(CommandPaletteMode::Intent))
    } else if is_char(key, 'c') && ctrl {
        Some(KeyRoute::Quit)
    } else if is_char(key, '1') && !typing {
        Some(KeyRoute::NavigateTo(TuiMode::Ingest))
    } else if is_char(key, '2') && !typing {
        Some(KeyRoute::NavigateTo(TuiMode::Run))
    } else if is_char(key, '3') && !typing {
        Some(KeyRoute::NavigateTo(TuiMode::Review))
    } else if is_char(key, '4') && !typing {
        Some(KeyRoute::NavigateTo(TuiMode::Query))
    } else if is_char(key, '5') && !typing {
        Some(KeyRoute::NavigateTo(TuiMode::Settings))
    } else if is_char(key, '[') && !typing {
        Some(KeyRoute::PrevTab)
    } else if is_char(key, ']') && !typing {
        Some(KeyRoute::NextTab)
    } else if is_char(key, 'I') && !typing {
        Some(KeyRoute::ToggleInspector)
    } else if is_char(key, 'J') && !typing {
        Some(KeyRoute::ToggleJobsDrawer)
    } else if is_char(key, 'S') && !typing && ctx.mode != TuiMode::Ingest {
        Some(KeyRoute::ToggleSourcesDrawer)
    } else if key.code == FlowKeyCode::Up && ctx.jobs_drawer_open {
        Some(KeyRoute::JobsDrawerUp)
    } else if key.code == FlowKeyCode::Down && ctx.jobs_drawer_open {
        Some(KeyRoute::JobsDrawerDown)
    } else if key.code == FlowKeyCode::Enter && ctx.jobs_drawer_open {
        Some(KeyRoute::JobsDrawerOpen)
    } else if key.code == FlowKeyCode::Esc && ctx.jobs_drawer_open {
        Some(KeyRoute::CloseJobsDrawer)
    } else if key.code == FlowKeyCode::Up && ctx.sources_drawer_open {
        Some(KeyRoute::SourcesDrawerUp)
    } else if key.code == FlowKeyCode::Down && ctx.sources_drawer_open {
        Some(KeyRoute::SourcesDrawerDown)
    } else if key.code == FlowKeyCode::Enter && ctx.sources_drawer_open {
        Some(KeyRoute::SourcesDrawerOpen)
    } else if is_char(key, 's') && ctx.sources_drawer_open {
        Some(KeyRoute::SourcesDrawerScan)
    } else if is_char(key, 'e') && ctx.sources_drawer_open {
        Some(KeyRoute::SourcesDrawerEdit)
    } else if is_char(key, 'd') && ctx.sources_drawer_open {
        Some(KeyRoute::SourcesDrawerDelete)
    } else if is_char(key, 'n') && ctx.sources_drawer_open {
        Some(KeyRoute::SourcesDrawerNew)
    } else if key.code == FlowKeyCode::Esc && ctx.sources_drawer_open {
        Some(KeyRoute::CloseSourcesDrawer)
    } else if (is_char(key, '0') || is_char(key, 'H')) && !typing {
        Some(KeyRoute::GoHome)
    } else if is_char(key, 'q') && !typing {
        Some(KeyRoute::Quit)
    } else if is_char(key, 'r') && !typing && !(ctx.mode == TuiMode::Ingest && ctx.ingest_tab
        == IngestTab::Sources) {
        Some(KeyRoute::Refresh)
    } else if is_char(key, '?') && !typing {
        Some(KeyRoute::ToggleHelp)
    } else if is_char(key, ',') && !typing {
        Some(KeyRoute::NavigateTo(TuiMode::Settings))
    } else {
        None
    }
}

/// Where a key goes: the open workspace switcher, then the open palette,
/// then the help overlay (Esc and `?` close it, other keys are swallowed)
/// take every key; then the shell's own keys; then, when no text is being
/// typed, the focused rail takes every key and Left moves the focus to the
/// rail (except on the discover screen); every other key goes to the
/// screen.
pub open spec fn key_route(ctx: KeyContext, key: FlowKey) -> KeyRoute {
    let screen = screen_spec(ctx.mode, ctx.ingest_tab, ctx.run_tab, ctx.review_tab);
    if ctx.workspace_switcher_visible {
        KeyRoute::WorkspaceSwitcher
    } else if ctx.command_palette_visible {
        KeyRoute::CommandPalette
    } else if ctx.show_help {
        if key.code == FlowKeyCode::Esc || is_char(key, '?') {
            KeyRoute::CloseHelp
        } else {
            KeyRoute::HelpIgnores
        }
    } else if shell_key(ctx, key) is Some {
        shell_key(ctx, key)->0
    } else if !ctx.text_input && ctx.shell_focus == ShellFocus::Rail {
        match key.code {
            FlowKeyCode::Up => KeyRoute::RailUp,
            FlowKeyCode::Down => KeyRoute::RailDown,
            FlowKeyCode::Enter => KeyRoute::RailEnter,
            FlowKeyCode::Right | FlowKeyCode::Esc => KeyRoute::RailLeave,
            _ => KeyRoute::RailIgnores,
        }
    } else if !ctx.text_input && key.code == FlowKeyCode::Left && screen != Screen::Discover {
        KeyRoute::FocusRail
    } else {
        KeyRoute::Screen(screen)
    }
}

fn key_is(key: &FlowKey, x: char) -> (b: bool)
    ensures
        b == is_char(*key, x),
{
    match key.code {
        FlowKeyCode::Char(c) => c == x,
        _ => false,
    }
}

fn shell_key_of(ctx: &KeyContext, key: &FlowKey) -> (r: Option<KeyRoute>)
    ensures
        r == shell_key(*ctx, *key),
{
    let typing = ctx.text_input;
    let ctrl = key.modifiers.ctrl;
    if key_is(key, ':') && !typing {
        Some(KeyRoute::OpenPalette(CommandPaletteMode::Command))
    } else if key_is(key, 'p') && ctrl {
        Some(KeyRoute::OpenPalette(CommandPaletteMode::Command))
    } else if key_is(key, 'w') && ctrl {
        if !typing {
            Some(KeyRoute::OpenWorkspaceSwitcher)
        } else {
            Some(KeyRoute::Screen(screen_of(ctx.mode, ctx.ingest_tab, ctx.run_tab, ctx.review_tab)))
        }
    } else if key_is(key, '>') && !typing {
        Some(KeyRoute::OpenPalette(CommandPaletteMode::Intent))
    } else if key_is(key, 'c') && ctrl {
        Some(KeyRoute::Quit)
    } else if key_is(key, '1') && !typing {
        Some(KeyRoute::NavigateTo(TuiMode::Ingest))
    } else if key_is(key, '2') && !typing {
        Some(KeyRoute::NavigateTo(TuiMode::Run))
    } else if key_is(key, '3') && !typing {
        Some(KeyRoute::NavigateTo(TuiMode::Review))
    } else if key_is(key, '4') && !typing {
        Some(KeyRoute::NavigateTo(TuiMode::Query))
    } else if key_is(key, '5') && !typing {
        Some(KeyRoute::NavigateTo(TuiMode::Settings))
    } else if key_is(key, '[') && !typing {
        Some(KeyRoute::PrevTab)
    } else if key_is(key, ']') && !typing {
        Some(KeyRoute::NextTab)
    } else if key_is(key, 'I') && !typing {
        Some(KeyRoute::ToggleInspector)
    } else if key_is(key, 'J') && !typing {
        Some(KeyRoute::ToggleJobsDrawer)
    } else if key_is(key, 'S') && !typing && ctx.mode != TuiMode::Ingest {
        Some(KeyRoute::ToggleSourcesDrawer)
    } else if key.code == FlowKeyCode::Up && ctx.jobs_drawer_open {
        Some(KeyRoute::JobsDrawerUp)
    } else if key.code == FlowKeyCode::Down && ctx.jobs_drawer_open {
        Some(KeyRoute::JobsDrawerDown)
    } else if key.code == FlowKeyCode::Enter && ctx.jobs_drawer_open {
        Some(KeyRoute::JobsDrawerOpen)
    } else if key.code == FlowKeyCode::Esc && ctx.jobs_drawer_open {
        Some(KeyRoute::CloseJobsDrawer)
    } else if key.code == FlowKeyCode::Up && ctx.sources_drawer_open {
        Some(KeyRoute::SourcesDrawerUp)
    } else if key.code == FlowKeyCode::Down && ctx.sources_drawer_open {
        Some(KeyRoute::SourcesDrawerDown)
    } else if key.code == FlowKeyCode::Enter && ctx.sources_drawer_open {
        Some(KeyRoute::SourcesDrawerOpen)
    } else if key_is(key, 's') && ctx.sources_drawer_open {
        Some(KeyRoute::SourcesDrawerScan)
    } else if key_is(key, 'e') && ctx.sources_drawer_open {
        Some(KeyRoute::SourcesDrawerEdit)
    } else if key_is(key, 'd') && ctx.sources_drawer_open {
        Some(KeyRoute::SourcesDrawerDelete)
    } else if key_is(key, 'n') && ctx.sources_drawer_open {
        Some(KeyRoute::SourcesDrawerNew)
    } else if key.code == FlowKeyCode::Esc && ctx.sources_drawer_open {
        Some(KeyRoute::CloseSourcesDrawer)
    } else if (key_is(key, '0') || key_is(key, 'H')) && !typing {
        Some(KeyRoute::GoHome)
    } else if key_is(key, 'q') && !typing {
        Some(KeyRoute::Quit)
    } else if key_is(key, 'r') && !typing && !(ctx.mode == TuiMode::Ingest && ctx.ingest_tab
        == IngestTab::Sources) {
        Some(KeyRoute::Refresh)
    } else if key_is(key, '?') && !typing {
        Some(KeyRoute::ToggleHelp)
    } else if key_is(key, ',') && !typing {
        Some(KeyRoute::NavigateTo(TuiMode::Settings))
    } else {
        None
    }
}

/// Decides where a key goes (see `key_route`).
pub fn route_key(ctx: &KeyContext, key: &FlowKey) -> (r: KeyRoute)
    ensures
        r == key_route(*ctx, *key),
{
    let screen = screen_of(ctx.mode, ctx.ingest_tab, ctx.run_tab, ctx.review_tab);
    if ctx.workspace_switcher_visible {
        return KeyRoute::WorkspaceSwitcher;
    }
    if ctx.command_palette_visible {
        return KeyRoute::CommandPalette;
    }
    if ctx.show_help {
        let closes = match key.code {
            FlowKeyCode::Esc => true,
            FlowKeyCode::Char(c) => c == '?',
            _ => false,
        };
        return if closes {
            KeyRoute::CloseHelp
        } else {
            KeyRoute::HelpIgnores
        };
    }
    if let Some(route) = shell_key_of(ctx, key) {
        return route;
    }
    if !ctx.text_input && ctx.shell_focus == ShellFocus::Rail {
        return match key.code {
            FlowKeyCode::Up => KeyRoute::RailUp,
            FlowKeyCode::Down => KeyRoute::RailDown,
            FlowKeyCode::Enter => KeyRoute::RailEnter,
            FlowKeyCode::Right | FlowKeyCode::Esc => KeyRoute::RailLeave,
            _ => KeyRoute::RailIgnores,
        };
    }
    if !ctx.text_input && key.code == FlowKeyCode::Left && screen != Screen::Discover {
        return KeyRoute::FocusRail;
    }
    KeyRoute::Screen(screen)
}

/// While text is being typed and no overlay or drawer is open, a character
/// typed without Ctrl reaches the screen.
pub proof fn law_typed_characters_reach_the_screen(ctx: KeyContext, key: FlowKey, c: char)
    requires
        ctx.text_input,
        !ctx.workspace_switcher_visible,
        !ctx.command_palette_visible,
        !ctx.show_help,
        !ctx.sources_drawer_open,
        key.code == FlowKeyCode::Char(c),
        !key.modifiers.ctrl,
    ensures
        key_route(ctx, key) == KeyRoute::Screen(
            screen_spec(ctx.mode, ctx.ingest_tab, ctx.run_tab, ctx.review_tab),
        ),
{
}

/// With no overlay open and no text being typed, keys 1 to 5 go to Ingest,
/// Run, Review, Query and Settings from every view.
pub proof fn law_view_keys_work_everywhere(ctx: KeyContext, key: FlowKey)
    requires
        !ctx.text_input,
        !ctx.workspace_switcher_visible,
        !ctx.command_palette_visible,
        !ctx.show_help,
    ensures
        is_char(key, '1') ==> key_route(ctx, key) == KeyRoute::NavigateTo(TuiMode::Ingest),
        is_char(key, '2') ==> key_route(ctx, key) == KeyRoute::NavigateTo(TuiMode::Run),
        is_char(key, '3') ==> key_route(ctx, key) == KeyRoute::NavigateTo(TuiMode::Review),
        is_char(key, '4') ==> key_route(ctx, key) == KeyRoute::NavigateTo(TuiMode::Query),
        is_char(key, '5') ==> key_route(ctx, key) == KeyRoute::NavigateTo(TuiMode::Settings),
{
}

/// With no overlay open and no text being typed, `[` goes to the previous
/// tab and `]` to the next one, from every view, whatever drawer is open.
pub proof fn law_tab_keys_step_tabs(ctx: KeyContext, key: FlowKey)
    requires
        !ctx.text_input,
        !ctx.workspace_switcher_visible,
        !ctx.command_palette_visible,
        !ctx.show_help,
    ensures
        is_char(key, '[') ==> key_route(ctx, key) == KeyRoute::PrevTab,
        is_char(key, ']') ==> key_route(ctx, key) == KeyRoute::NextTab,
        key_route(ctx, key) == KeyRoute::PrevTab ==> is_char(key, '['),
        key_route(ctx, key) == KeyRoute::NextTab ==> is_char(key, ']'),
{
}

/// With no overlay open, Ctrl+C quits, typing or not.
pub proof fn law_ctrl_c_quits(ctx: KeyContext, key: FlowKey)
    requires
        !ctx.workspace_switcher_visible,
        !ctx.command_palette_visible,
        !ctx.show_help,
        is_char(key, 'c'),
        key.modifiers.ctrl,
    ensures
        key_route(ctx, key) == KeyRoute::Quit,
{
}

/// An open overlay takes every key: the workspace switcher first, then the
/// command palette.
pub proof fn law_overlays_take_every_key(ctx: KeyContext, key: FlowKey)
    ensures
        ctx.workspace_switcher_visible ==> key_route(ctx, key) == KeyRoute::WorkspaceSwitcher,
        !ctx.workspace_switcher_visible && ctx.command_palette_visible ==> key_route(ctx, key)
            == KeyRoute::CommandPalette,
{
}

/// What decides whether a text field has the input.
#[derive(Debug, Clone)]
pub struct InputContext {
    pub command_palette_visible: bool,
    pub workspace_switcher_visible: bool,
    pub workspace_switcher_mode: WorkspaceSwitcherMode,
    pub mode: TuiMode,
    pub ingest_tab: IngestTab,
    pub review_tab: ReviewTab,
    /// A source is being edited on the sources screen
    pub sources_editing: bool,
    /// The file browser is filtering
    pub explorer_filtering: bool,
    pub sources_filtering: bool,
    pub tags_filtering: bool,
    pub discover_view: DiscoverViewState,
    /// Focus of the rule builder, when there is one
    pub rule_builder_focus: Option<RuleBuilderFocus>,
    pub approvals_view: ApprovalsViewState,
    pub query_view: QueryViewState,
}

/// Rule builder fields that take typed text.
pub open spec fn builder_focus_types(focus: Option<RuleBuilderFocus>) -> bool {
    match focus {
        Some(RuleBuilderFocus::Pattern) | Some(RuleBuilderFocus::Tag) | Some(
            RuleBuilderFocus::ExcludeInput,
        ) | Some(RuleBuilderFocus::ExtractionEdit(_)) => true,
        _ => false,
    }
}

/// Discover views whose field takes typed text.
pub open spec fn discover_view_types(view: DiscoverViewState) -> bool {
    match view {
        DiscoverViewState::Filtering | DiscoverViewState::EnteringPath
        | DiscoverViewState::ScanConfirm | DiscoverViewState::Tagging
        | DiscoverViewState::CreatingSource | DiscoverViewState::BulkTagging
        | DiscoverViewState::RuleCreation | DiscoverViewState::SourcesDropdown
        | DiscoverViewState::TagsDropdown | DiscoverViewState::SourceEdit => true,
        _ => false,
    }
}

/// A text field has the input: the open palette; the workspace switcher
/// while naming a new workspace; on Ingest, the source editor on the Sources
/// tab, else a filtering browser or dropdown, a typing field of the rule
/// builder, or a dialog that takes text; on Review, the reject
/// confirmation of the approvals tab; on Query, the editor.
pub open spec fn text_input_spec(ctx: InputContext) -> bool {
    if ctx.command_palette_visible {
        true
    } else if ctx.workspace_switcher_visible && ctx.workspace_switcher_mode
        == WorkspaceSwitcherMode::Creating {
        true
    } else {
        match ctx.mode {
            TuiMode::Ingest => if ctx.ingest_tab == IngestTab::Sources {
                ctx.sources_editing
            } else {
                ctx.explorer_filtering || ctx.sources_filtering || ctx.tags_filtering || (
                ctx.discover_view == DiscoverViewState::RuleBuilder && builder_focus_types(
                    ctx.rule_builder_focus,
                )) || discover_view_types(ctx.discover_view)
            },
            TuiMode::Review => ctx.review_tab == ReviewTab::Approvals && ctx.approvals_view
                == ApprovalsViewState::ConfirmReject,
            TuiMode::Query => ctx.query_view == QueryViewState::Editing,
            _ => false,
        }
    }
}

/// Whether a text field has the input (see `text_input_spec`).
pub fn text_input_active(ctx: &InputContext) -> (r: bool)
    ensures
        r == text_input_spec(*ctx),
{
    if ctx.command_palette_visible {
        return true;
    }
    if ctx.workspace_switcher_visible && ctx.workspace_switcher_mode
        == WorkspaceSwitcherMode::Creating {
        return true;
    }
    match ctx.mode {
        TuiMode::Ingest => {
            if ctx.ingest_tab == IngestTab::Sources {
                return ctx.sources_editing;
            }
            if ctx.explorer_filtering || ctx.sources_filtering || ctx.tags_filtering {
                return true;
            }
            if ctx.discover_view == DiscoverViewState::RuleBuilder {
                let typing = match &ctx.rule_builder_focus {
                    Some(RuleBuilderFocus::Pattern) | Some(RuleBuilderFocus::Tag) | Some(
                        RuleBuilderFocus::ExcludeInput,
                    ) | Some(RuleBuilderFocus::ExtractionEdit(_)) => true,
                    _ => false,
                };
                if typing {
                    return true;
                }
            }
            match ctx.discover_view {
                DiscoverViewState::Filtering | DiscoverViewState::EnteringPath
                | DiscoverViewState::ScanConfirm | DiscoverViewState::Tagging
                | DiscoverViewState::CreatingSource | DiscoverViewState::BulkTagging
                | DiscoverViewState::RuleCreation | DiscoverViewState::SourcesDropdown
                | DiscoverViewState::TagsDropdown | DiscoverViewState::SourceEdit => true,
                _ => false,
            }
        },
        TuiMode::Review => ctx.review_tab == ReviewTab::Approvals && ctx.approvals_view
            == ApprovalsViewState::ConfirmReject,
        TuiMode::Query => ctx.query_view == QueryViewState::Editing,
        _ => false,
    }
}

/// What a screen's hints depend on.
#[derive(Debug, Clone, Copy, PartialEq, Eq, Structural)]
pub struct HintContext {
    pub screen: Screen,
    /// Text is being typed in the rule builder
    pub rule_builder_input: bool,
    pub approvals_view: ApprovalsViewState,
    pub jobs_view: JobsViewState,
    pub query_view: QueryViewState,
    pub query_executing: bool,
    pub settings_editing: bool,
    pub sessions_view: SessionsViewState,
    /// The triage list is filtered to one job
    pub triage_job_filter_set: bool,
}

/// The hints of the screen in the main area.
pub open spec fn screen_hints(ctx: HintContext, r: Seq<ActionHint>) -> bool {
    match ctx.screen {
        Screen::Home => home_hints(r),
        Screen::Sources => sources_hints(r),
        Screen::Discover => discover_hints(ctx.rule_builder_input, r),
        Screen::Jobs => jobs_hints(ctx.jobs_view, r),
        Screen::Catalog => catalog_hints(r),
        Screen::Triage => triage_hints(ctx.triage_job_filter_set, r),
        Screen::Approvals => approvals_hints(ctx.approvals_view, r),
        Screen::Sessions => sessions_hints(ctx.sessions_view, r),
        Screen::Query => query_hints(ctx.query_view, ctx.query_executing, r),
        Screen::Settings => settings_hints(ctx.settings_editing, r),
    }
}

/// The key hints of the screen in the main area.
pub fn effective_actions(ctx: &HintContext) -> (r: Vec<ActionHint>)
    ensures
        screen_hints(*ctx, r@),
{
    match ctx.screen {
        Screen::Home => home_actions(),
        Screen::Sources => sources_actions(),
        Screen::Discover => discover_actions(ctx.rule_builder_input),
        Screen::Jobs => jobs_actions(ctx.jobs_view),
        Screen::Catalog => catalog_actions(),
        Screen::Triage => triage_actions(ctx.triage_job_filter_set),
        Screen::Approvals => approvals_actions(ctx.approvals_view),
        Screen::Sessions => sessions_actions(ctx.sessions_view),
        Screen::Query => query_actions(ctx.query_view, ctx.query_executing),
        Screen::Settings => settings_actions(ctx.settings_editing),
    }
}

} // verus!

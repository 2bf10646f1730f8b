//! The key hints each screen shows, in order of importance.
use vstd::prelude::*;
use crate::action_bar::ActionHint;
use crate::approvals::ApprovalsViewState;
use crate::jobs::JobsViewState;
use crate::query::QueryViewState;
use crate::sessions::SessionsViewState;

verus! {

/// Priority of the hint at row `i`: 100 for the first, 5 less for each
/// next, never below 1.
pub open spec fn rank_priority(i: int) -> u8 {
    if 100 - 5 * i >= 1 {
        (100 - 5 * i) as u8
    } else {
        1
    }
}

/// The hint row `i` of a table turns into.
pub open spec fn hint_matches(h: ActionHint, entry: (&str, &str), i: int) -> bool {
    &&& h.key@ == entry.0@
    &&& h.label@ == entry.1@
    &&& h.enabled
    &&& h.priority == rank_priority(i)
}

/// `r` holds the table's hints, in order, ranked by position.
pub open spec fn ranked(r: Seq<ActionHint>, items: Seq<(&str, &str)>) -> bool {
    &&& r.len() == items.len()
    &&& forall|i: int| 0 <= i < items.len() ==> hint_matches(#[trigger] r[i], items[i], i)
}

/// Hints for a table of keys and labels, ranked by position.
pub fn ordered_hints(items: &[(&str, &str)]) -> (r: Vec<ActionHint>)
    requires
        items@.len() <= 6573,
    ensures
        ranked(r@, items@),
{
    let mut hints: Vec<ActionHint> = Vec::new();
    let mut priority: i16 = 100;
    let mut i: usize = 0;
    while i < items.len()
        invariant
            i <= items@.len(),
            items@.len() <= 6573,
            priority == 100 - 5 * i,
            hints@.len() == i,
            forall|k: int| 0 <= k < i ==> hint_matches(#[trigger] hints@[k], items@[k], k),
        decreases items@.len() - i,
    {
        let (key, label) = items[i];
        let prio: u8 = if priority >= 1 {
            priority as u8
        } else {
            1
        };
        hints.push(ActionHint::new(key, label, prio));
        priority -= 5;
        i += 1;
    }
    hints
}

/// The hints home_actions gives.
pub open spec fn home_hints(r: Seq<ActionHint>) -> bool {
    &&& (ranked(
            r,
            seq![("Enter", "Open"), ("s", "Scan"), ("/", "Filter"), ("r", "Refresh"), ("I", "Inspector"), ("?", "Help")]))
}

pub fn home_actions() -> (r: Vec<ActionHint>)
    ensures
        home_hints(r@),
{
    let items = [("Enter", "Open"), ("s", "Scan"), ("/", "Filter"), ("r", "Refresh"), ("I", "Inspector"), ("?", "Help")];
    ordered_hints(&items)
}

/// The hints sources_actions gives.
pub open spec fn sources_hints(r: Seq<ActionHint>) -> bool {
    &&& (ranked(
            r,
            seq![("Up/Down", "Navigate"), ("n", "New"), ("e", "Edit"), ("r", "Rescan"), ("d", "Delete"), ("I", "Inspector"), ("?", "Help")]))
}

pub fn sources_actions() -> (r: Vec<ActionHint>)
    ensures
        sources_hints(r@),
{
    let items = [("Up/Down", "Navigate"), ("n", "New"), ("e", "Edit"), ("r", "Rescan"), ("d", "Delete"), ("I", "Inspector"), ("?", "Help")];
    ordered_hints(&items)
}

/// The hints catalog_actions gives.
pub open spec fn catalog_hints(r: Seq<ActionHint>) -> bool {
    &&& (ranked(
            r,
            seq![("Tab", "Next Tab"), ("Up/Down", "Select"), ("Enter", "Runs"), ("r", "Refresh"), ("Esc", "Back")]))
}

pub fn catalog_actions() -> (r: Vec<ActionHint>)
    ensures
        catalog_hints(r@),
{
    let items = [("Tab", "Next Tab"), ("Up/Down", "Select"), ("Enter", "Runs"), ("r", "Refresh"), ("Esc", "Back")];
    ordered_hints(&items)
}

/// The hints discover_actions gives.
pub open spec fn discover_hints(rule_builder_input: bool, r: Seq<ActionHint>) -> bool {
    &&& (!rule_builder_input ==> ranked(
            r,
            seq![("e", "Sample"), ("E", "Full"), ("t", "Apply Tag"), ("b", "Backtest"), ("s", "Scan"), ("Ctrl+S", "Save"), ("Ctrl+N", "Clear"), ("I", "Inspector"), ("?", "Help")]))
    &&& (rule_builder_input ==> ranked(
            r,
            seq![("e", "Sample"), ("E", "Full"), ("t", "Apply Tag"), ("b", "Backtest"), ("Esc", "Exit input"), ("s", "Scan"), ("Ctrl+S", "Save"), ("Ctrl+N", "Clear"), ("I", "Inspector"), ("?", "Help")]))
}

/// The discover screen's hints; with text input in the rule builder, "Esc"
/// to leave the input comes fifth.
pub fn discover_actions(rule_builder_input: bool) -> (r: Vec<ActionHint>)
    ensures
        discover_hints(rule_builder_input, r@),
{
    if rule_builder_input {
        let items = [("e", "Sample"), ("E", "Full"), ("t", "Apply Tag"), ("b", "Backtest"), ("Esc", "Exit input"), ("s", "Scan"), ("Ctrl+S", "Save"), ("Ctrl+N", "Clear"), ("I", "Inspector"), ("?", "Help")];
        ordered_hints(&items)
    } else {
        let items = [("e", "Sample"), ("E", "Full"), ("t", "Apply Tag"), ("b", "Backtest"), ("s", "Scan"), ("Ctrl+S", "Save"), ("Ctrl+N", "Clear"), ("I", "Inspector"), ("?", "Help")];
        ordered_hints(&items)
    }
}

/// The hints approvals_actions gives.
pub open spec fn approvals_hints(view: ApprovalsViewState, r: Seq<ActionHint>) -> bool {
    &&& (view != ApprovalsViewState::List ==> r.len() == 0)
    &&& (view == ApprovalsViewState::List ==> ranked(
            r,
            seq![("j/k", "Navigate"), ("a", "Approve"), ("r", "Reject"), ("f", "Filter"), ("Enter", "Pin"), ("d", "Details"), ("R", "Refresh"), ("I", "Inspector")]))
}

/// The approvals screen's hints; none outside the list view.
pub fn approvals_actions(view: ApprovalsViewState) -> (r: Vec<ActionHint>)
    ensures
        approvals_hints(view, r@),
{
    if view != ApprovalsViewState::List {
        return Vec::new();
    }
    let items = [("j/k", "Navigate"), ("a", "Approve"), ("r", "Reject"), ("f", "Filter"), ("Enter", "Pin"), ("d", "Details"), ("R", "Refresh"), ("I", "Inspector")];
    ordered_hints(&items)
}

/// The hints jobs_actions gives.
pub open spec fn jobs_hints(view: JobsViewState, r: Seq<ActionHint>) -> bool {
    &&& (view == JobsViewState::MonitoringPanel ==> ranked(
            r,
            seq![("Esc", "Back"), ("p", "Pause updates"), ("x", "Reset stats"), ("I", "Inspector")]))
    &&& (view == JobsViewState::LogViewer ==> ranked(
            r,
            seq![("Esc", "Back"), ("Up/Down", "Scroll"), ("y", "Copy path"), ("?", "Help")]))
    &&& (view == JobsViewState::FilterDialog ==> ranked(
            r,
            seq![("s", "Status"), ("t", "Type"), ("x", "Clear"), ("Enter", "Apply"), ("Esc", "Back")]))
    &&& (view == JobsViewState::ViolationDetail ==> ranked(
            r,
            seq![("Up/Down", "Select"), ("a", "Apply fix"), ("v/Esc", "Back"), ("?", "Help")]))
    &&& ((view == JobsViewState::JobList || view == JobsViewState::DetailPanel) ==> ranked(
            r,
            seq![("Up/Down", "Select"), ("Tab", "Section"), ("Enter", "Pin"), ("p", "Pipeline"), ("f", "Filter"), ("Del", "Clear"), ("Q", "Quarantine"), ("C", "Catalog"), ("v", "Violations"), ("L", "Logs"), ("O", "Open"), ("y", "Copy path"), ("I", "Inspector"), ("?", "Help")]))
}

/// The jobs screen's hints for each view.
pub fn jobs_actions(view: JobsViewState) -> (r: Vec<ActionHint>)
    ensures
        jobs_hints(view, r@),
{
    match view {
        JobsViewState::MonitoringPanel => {
            let items = [("Esc", "Back"), ("p", "Pause updates"), ("x", "Reset stats"), ("I", "Inspector")];
            ordered_hints(&items)
        },
        JobsViewState::LogViewer => {
            let items = [("Esc", "Back"), ("Up/Down", "Scroll"), ("y", "Copy path"), ("?", "Help")];
            ordered_hints(&items)
        },
        JobsViewState::FilterDialog => {
            let items = [("s", "Status"), ("t", "Type"), ("x", "Clear"), ("Enter", "Apply"), ("Esc", "Back")];
            ordered_hints(&items)
        },
        JobsViewState::ViolationDetail => {
            let items = [("Up/Down", "Select"), ("a", "Apply fix"), ("v/Esc", "Back"), ("?", "Help")];
            ordered_hints(&items)
        },
        _ => {
            let items = [("Up/Down", "Select"), ("Tab", "Section"), ("Enter", "Pin"), ("p", "Pipeline"), ("f", "Filter"), ("Del", "Clear"), ("Q", "Quarantine"), ("C", "Catalog"), ("v", "Violations"), ("L", "Logs"), ("O", "Open"), ("y", "Copy path"), ("I", "Inspector"), ("?", "Help")];
            ordered_hints(&items)
        },
    }
}

/// The hints query_actions gives.
pub open spec fn query_hints(view: QueryViewState, executing: bool, r: Seq<ActionHint>) -> bool {
    &&& (view == QueryViewState::Editing && executing ==> ranked(r, seq![("Tab", "Results")]))
    &&& (view == QueryViewState::Editing && !executing ==> ranked(
            r,
            seq![("Ctrl+Enter", "Execute"), ("Ctrl+L", "Clear"), ("Ctrl+T", "Tables"), ("Ctrl+S", "Save"), ("Ctrl+O", "Open"), ("Tab", "Results")]))
    &&& (view == QueryViewState::Executing ==> ranked(r, seq![("Esc", "Detach")]))
    &&& (view == QueryViewState::ViewingResults ==> ranked(
            r,
            seq![("Tab/Esc", "Editor"), ("Up/Down", "Navigate"), ("Left/Right", "Scroll"), ("PgUp/PgDn", "Page")]))
    &&& (view == QueryViewState::TableBrowser ==> ranked(r, seq![("Enter", "Insert"), ("Esc", "Close")]))
    &&& (view == QueryViewState::SavedQueries ==> ranked(r, seq![("Enter", "Load"), ("Esc", "Close")]))
}

/// The query screen's hints for each view; while a query runs, the editor
/// only offers the results.
pub fn query_actions(view: QueryViewState, executing: bool) -> (r: Vec<ActionHint>)
    ensures
        query_hints(view, executing, r@),
{
    match view {
        QueryViewState::Editing => {
            if executing {
                let items = [("Tab", "Results")];
                ordered_hints(&items)
            } else {
                let items = [("Ctrl+Enter", "Execute"), ("Ctrl+L", "Clear"), ("Ctrl+T", "Tables"), ("Ctrl+S", "Save"), ("Ctrl+O", "Open"), ("Tab", "Results")];
                ordered_hints(&items)
            }
        },
        QueryViewState::Executing => {
            let items = [("Esc", "Detach")];
            ordered_hints(&items)
        },
        QueryViewState::ViewingResults => {
            let items = [("Tab/Esc", "Editor"), ("Up/Down", "Navigate"), ("Left/Right", "Scroll"), ("PgUp/PgDn", "Page")];
            ordered_hints(&items)
        },
        QueryViewState::TableBrowser => {
            let items = [("Enter", "Insert"), ("Esc", "Close")];
            ordered_hints(&items)
        },
        QueryViewState::SavedQueries => {
            let items = [("Enter", "Load"), ("Esc", "Close")];
            ordered_hints(&items)
        },
    }
}

/// The hints settings_actions gives.
pub open spec fn settings_hints(editing: bool, r: Seq<ActionHint>) -> bool {
    &&& (editing ==> ranked(r, seq![("Enter", "Save"), ("Esc", "Cancel"), ("I", "Inspector")]))
    &&& (!editing ==> ranked(
            r,
            seq![("Up/Down", "Navigate"), ("Tab", "Category"), ("Enter", "Edit/Toggle"), ("I", "Inspector")]))
}

/// The settings screen's hints, editing or browsing.
pub fn settings_actions(editing: bool) -> (r: Vec<ActionHint>)
    ensures
        settings_hints(editing, r@),
{
    if editing {
        let items = [("Enter", "Save"), ("Esc", "Cancel"), ("I", "Inspector")];
        ordered_hints(&items)
    } else {
        let items = [("Up/Down", "Navigate"), ("Tab", "Category"), ("Enter", "Edit/Toggle"), ("I", "Inspector")];
        ordered_hints(&items)
    }
}

/// The hints sessions_actions gives.
pub open spec fn sessions_hints(view: SessionsViewState, r: Seq<ActionHint>) -> bool {
    &&& (view == SessionsViewState::GateApproval ==> ranked(
            r,
            seq![("a", "Approve"), ("r", "Reject"), ("Esc", "Back"), ("I", "Inspector")]))
    &&& (view == SessionsViewState::SessionList ==> ranked(
            r,
            seq![("Enter", "View"), ("n", "New Session"), ("r", "Refresh"), ("Esc", "Back"), ("I", "Inspector")]))
    &&& (view == SessionsViewState::SessionDetail ==> ranked(
            r,
            seq![("w", "Workflow"), ("j", "Jobs"), ("q", "Query"), ("d", "Discover"), ("Esc", "Back"), ("I", "Inspector")]))
    &&& ((view == SessionsViewState::WorkflowProgress || view == SessionsViewState::ProposalReview)
            ==> ranked(r, seq![("Esc", "Back"), ("I", "Inspector")]))
}

/// The sessions screen's hints for each view.
pub fn sessions_actions(view: SessionsViewState) -> (r: Vec<ActionHint>)
    ensures
        sessions_hints(view, r@),
{
    match view {
        SessionsViewState::GateApproval => {
            let items = [("a", "Approve"), ("r", "Reject"), ("Esc", "Back"), ("I", "Inspector")];
            ordered_hints(&items)
        },
        SessionsViewState::SessionList => {
            let items = [("Enter", "View"), ("n", "New Session"), ("r", "Refresh"), ("Esc", "Back"), ("I", "Inspector")];
            ordered_hints(&items)
        },
        SessionsViewState::SessionDetail => {
            let items = [("w", "Workflow"), ("j", "Jobs"), ("q", "Query"), ("d", "Discover"), ("Esc", "Back"), ("I", "Inspector")];
            ordered_hints(&items)
        },
        _ => {
            let items = [("Esc", "Back"), ("I", "Inspector")];
            ordered_hints(&items)
        },
    }
}

/// The hints triage_actions gives.
pub open spec fn triage_hints(job_filter_set: bool, r: Seq<ActionHint>) -> bool {
    &&& (!job_filter_set ==> ranked(
            r,
            seq![("Tab", "Next Tab"), ("Up/Down", "Select"), ("j", "Jobs"), ("y", "Copy"), ("r", "Refresh"), ("Esc", "Back")]))
    &&& (job_filter_set ==> ranked(
            r,
            seq![("Tab", "Next Tab"), ("Up/Down", "Select"), ("j", "Jobs"), ("y", "Copy"), ("Del", "Clear filter"), ("r", "Refresh"), ("Esc", "Back")]))
}

/// The triage screen's hints; with a job filter set, "Del" to clear it
/// comes fifth.
pub fn triage_actions(job_filter_set: bool) -> (r: Vec<ActionHint>)
    ensures
        triage_hints(job_filter_set, r@),
{
    if job_filter_set {
        let items = [("Tab", "Next Tab"), ("Up/Down", "Select"), ("j", "Jobs"), ("y", "Copy"), ("Del", "Clear filter"), ("r", "Refresh"), ("Esc", "Back")];
        ordered_hints(&items)
    } else {
        let items = [("Tab", "Next Tab"), ("Up/Down", "Select"), ("j", "Jobs"), ("y", "Copy"), ("r", "Refresh"), ("Esc", "Back")];
        ordered_hints(&items)
    }
}

/// The hints global_actions gives.
pub open spec fn global_hints(text_input: bool, r: Seq<ActionHint>) -> bool {
    &&& (!text_input ==> ranked(
            r,
            seq![("?", "Help"), ("q", "Quit"), ("r", "Refresh"), ("I", "Inspector"), ("Ctrl+W", "Workspaces"), (":", "Command"), (">", "Intent"), ("[", "Prev Tab"), ("]", "Next Tab"), ("0", "Home"), ("1", "Ingest"), ("2", "Run"), ("3", "Review"), ("4", "Query"), ("5", "Settings")]))
    &&& (text_input ==> r.len() == 16 && r[0].key@ == "Esc"@ && r[0].label@ == "Exit input"@
            && r[0].enabled && r[0].priority == 110 && ranked(
            r.drop_first(),
            seq![("?", "Help"), ("q", "Quit"), ("r", "Refresh"), ("I", "Inspector"), ("Ctrl+W", "Workspaces"), (":", "Command"), (">", "Intent"), ("[", "Prev Tab"), ("]", "Next Tab"), ("0", "Home"), ("1", "Ingest"), ("2", "Run"), ("3", "Review"), ("4", "Query"), ("5", "Settings")]))
}

/// The shell's own hints; during text input "Esc" to leave it comes first,
/// above all others.
pub fn global_actions(text_input: bool) -> (r: Vec<ActionHint>)
    ensures
        global_hints(text_input, r@),
{
    let items = [("?", "Help"), ("q", "Quit"), ("r", "Refresh"), ("I", "Inspector"), ("Ctrl+W", "Workspaces"), (":", "Command"), (">", "Intent"), ("[", "Prev Tab"), ("]", "Next Tab"), ("0", "Home"), ("1", "Ingest"), ("2", "Run"), ("3", "Review"), ("4", "Query"), ("5", "Settings")];
    let mut actions = ordered_hints(&items);
    if text_input {
        let ghost before = actions@;
        actions.insert(0, ActionHint::new("Esc", "Exit input", 110));
        proof {
            assert(actions@.drop_first() =~= before);
        }
    }
    actions
}

} // verus!

//! The command palette: a one-line input with a character cursor, three
//! input modes, suggestions computed from the input, and a short history of
//! recent intents.
use vstd::prelude::*;
use crate::tabs::TuiMode;
use crate::text::min_nat;
use crate::text::{
    concat3, owned, seq_contains, str_chars, str_contains, str_eq, string_from_chars, strings_view,
    to_lowercase, unicode_lower, without,
};

verus! {

/// Input mode of the palette.
#[derive(Debug, Clone, Copy, PartialEq, Eq, Structural)]
pub enum CommandPaletteMode {
    /// Natural language intent: "find all sales files"
    Intent,
    /// Slash commands: "/scan", "/query", "/approve"
    Command,
    /// Quick navigation: "jobs", "approvals", "home"
    Navigation,
}

impl CommandPaletteMode {
    pub open spec fn indicator_spec(self) -> Seq<char> {
        match self {
            CommandPaletteMode::Intent => ">"@,
            CommandPaletteMode::Command => "/"@,
            CommandPaletteMode::Navigation => "@"@,
        }
    }

    pub open spec fn name_spec(self) -> Seq<char> {
        match self {
            CommandPaletteMode::Intent => "Intent"@,
            CommandPaletteMode::Command => "Command"@,
            CommandPaletteMode::Navigation => "Navigate"@,
        }
    }

    pub open spec fn next_spec(self) -> Self {
        match self {
            CommandPaletteMode::Intent => CommandPaletteMode::Command,
            CommandPaletteMode::Command => CommandPaletteMode::Navigation,
            CommandPaletteMode::Navigation => CommandPaletteMode::Intent,
        }
    }

    /// Mode indicator: `>` intent, `/` command, `@` navigation.
    pub fn indicator(&self) -> (r: &'static str)
        ensures
            r@ == self.indicator_spec(),
    {
        match self {
            CommandPaletteMode::Intent => ">",
            CommandPaletteMode::Command => "/",
            CommandPaletteMode::Navigation => "@",
        }
    }

    pub fn name(&self) -> (r: &'static str)
        ensures
            r@ == self.name_spec(),
    {
        match self {
            CommandPaletteMode::Intent => "Intent",
            CommandPaletteMode::Command => "Command",
            CommandPaletteMode::Navigation => "Navigate",
        }
    }

    /// The next mode: intent, command, navigation, intent.
    pub fn next(&self) -> (r: Self)
        ensures
            r == self.next_spec(),
    {
        match self {
            CommandPaletteMode::Intent => CommandPaletteMode::Command,
            CommandPaletteMode::Command => CommandPaletteMode::Navigation,
            CommandPaletteMode::Navigation => CommandPaletteMode::Intent,
        }
    }
}

/// Cycling the mode three times returns to where it started.
pub proof fn law_palette_mode_cycle(m: CommandPaletteMode)
    ensures
        m.next_spec().next_spec().next_spec() == m,
{
}

/// What selecting a suggestion does.
#[derive(Debug, Clone)]
pub enum CommandAction {
    /// Go to a screen
    Navigate(TuiMode),
    /// Start an intent pipeline with the given text
    StartIntent(String),
    /// Run a slash command
    RunCommand(String),
}

pub enum ActionView {
    Navigate(TuiMode),
    StartIntent(Seq<char>),
    RunCommand(Seq<char>),
}

impl CommandAction {
    pub open spec fn view(&self) -> ActionView {
        match self {
            CommandAction::Navigate(m) => ActionView::Navigate(*m),
            CommandAction::StartIntent(s) => ActionView::StartIntent(s@),
            CommandAction::RunCommand(s) => ActionView::RunCommand(s@),
        }
    }
}

/// A suggestion under the input.
#[derive(Debug, Clone)]
pub struct CommandSuggestion {
    pub text: String,
    pub description: String,
    pub action: CommandAction,
}

pub struct SuggestionView {
    pub text: Seq<char>,
    pub description: Seq<char>,
    pub action: ActionView,
}

impl CommandSuggestion {
    pub open spec fn view(&self) -> SuggestionView {
        SuggestionView { text: self.text@, description: self.description@, action: self.action.view() }
    }
}

pub open spec fn suggestions_view(v: Seq<CommandSuggestion>) -> Seq<SuggestionView> {
    v.map_values(|s: CommandSuggestion| s.view())
}

// ---------------------------------------------------------------------------
// What the suggestions are
// ---------------------------------------------------------------------------

/// Most suggestions the intent mode lists before its examples.
pub open spec fn intent_limit() -> nat {
    8
}

pub open spec fn intent_suggestion(input: Seq<char>) -> SuggestionView {
    SuggestionView {
        text: "Find: \""@ + input + "\""@,
        description: "Start new intent pipeline with file discovery"@,
        action: ActionView::StartIntent(input),
    }
}

pub open spec fn recent_suggestion(recent: Seq<char>) -> SuggestionView {
    SuggestionView {
        text: "Recent: \""@ + recent + "\""@,
        description: "Re-run previous intent"@,
        action: ActionView::StartIntent(recent),
    }
}

pub open spec fn example_suggestions() -> Seq<SuggestionView> {
    seq![
        SuggestionView {
            text: "Example: \"find all sales files\""@,
            description: "Discover files matching a pattern"@,
            action: ActionView::StartIntent("find all sales files"@),
        },
        SuggestionView {
            text: "Example: \"process csv files in /data\""@,
            description: "Find and process specific file types"@,
            action: ActionView::StartIntent("process csv files in /data"@),
        },
    ]
}

/// Recent intents from row `i` on that match the lowered input `q` (or all
/// of them when the input is empty), stopping once `count` reaches the limit.
pub open spec fn recent_tail(
    recents: Seq<Seq<char>>,
    lowered: Seq<Seq<char>>,
    q: Seq<char>,
    empty: bool,
    i: nat,
    count: nat,
) -> Seq<SuggestionView>
    decreases recents.len() - i,
{
    if i >= recents.len() {
        Seq::empty()
    } else {
        let m = seq_contains(lowered[i as int], q) || empty;
        let c2 = if m {
            count + 1
        } else {
            count
        };
        let head = if m {
            seq![recent_suggestion(recents[i as int])]
        } else {
            Seq::<SuggestionView>::empty()
        };
        if c2 >= intent_limit() {
            head
        } else {
            head + recent_tail(recents, lowered, q, empty, i + 1, c2)
        }
    }
}

/// Intent mode: the typed intent, matching recent intents, and two examples
/// when nothing is typed.
pub open spec fn intent_suggestions(
    input: Seq<char>,
    q: Seq<char>,
    recents: Seq<Seq<char>>,
    lowered: Seq<Seq<char>>,
) -> Seq<SuggestionView> {
    let lead = if input.len() > 0 {
        seq![intent_suggestion(input)]
    } else {
        Seq::<SuggestionView>::empty()
    };
    let tail = if input.len() == 0 {
        example_suggestions()
    } else {
        Seq::<SuggestionView>::empty()
    };
    lead + recent_tail(recents, lowered, q, input.len() == 0, 0, lead.len()) + tail
}

/// The slash commands: command, description, command run.
pub open spec fn command_table() -> Seq<(Seq<char>, Seq<char>)> {
    seq![
        ("/scan"@, "Scan a directory for files (Ingest)"@),
        ("/query"@, "Query processed data"@),
        ("/approve"@, "Review approvals"@),
        ("/workspace"@, "Switch workspace"@),
        ("/quarantine"@, "Open quarantine (Review)"@),
        ("/catalog"@, "Open outputs catalog (Run)"@),
        ("/pipelines"@, "Open outputs catalog (Run)"@),
        ("/jobs"@, "View jobs (Run)"@),
        ("/help"@, "Show help"@),
    ]
}

pub open spec fn command_rows(q: Seq<char>, empty: bool, k: nat) -> Seq<SuggestionView>
    decreases 9 - k,
{
    if k >= 9 {
        Seq::empty()
    } else {
        let (cmd, desc) = command_table()[k as int];
        let rest = command_rows(q, empty, k + 1);
        if seq_contains(cmd, q) || empty {
            seq![SuggestionView { text: cmd, description: desc, action: ActionView::RunCommand(cmd) }]
                + rest
        } else {
            rest
        }
    }
}

/// The screens the navigation mode offers: label, description, screen.
pub open spec fn nav_table() -> Seq<(Seq<char>, Seq<char>, TuiMode)> {
    seq![
        ("Home"@, "Quick start and status dashboard"@, TuiMode::Home),
        ("Ingest"@, "Sources, selection, rules and validation"@, TuiMode::Ingest),
        ("Run"@, "Jobs and outputs"@, TuiMode::Run),
        ("Review"@, "Triage, approvals and sessions"@, TuiMode::Review),
        ("Query"@, "SQL query console"@, TuiMode::Query),
        ("Settings"@, "Application settings"@, TuiMode::Settings),
    ]
}

pub open spec fn nav_count() -> nat {
    6
}

pub open spec fn nav_rows(q: Seq<char>, empty: bool, labels_lower: Seq<Seq<char>>, k: nat) -> Seq<
    SuggestionView,
>
    decreases nav_count() - k,
{
    if k >= nav_count() {
        Seq::empty()
    } else {
        let (label, desc, mode) = nav_table()[k as int];
        let rest = nav_rows(q, empty, labels_lower, k + 1);
        if seq_contains(labels_lower[k as int], q) || empty {
            seq![SuggestionView { text: label, description: desc, action: ActionView::Navigate(mode) }]
                + rest
        } else {
            rest
        }
    }
}

/// The suggestions for a mode and input, given the lowercased forms of the
/// input (`q`), of the recent intents, and of the navigation labels.
pub open spec fn suggestions_spec(
    mode: CommandPaletteMode,
    input: Seq<char>,
    q: Seq<char>,
    recents: Seq<Seq<char>>,
    recents_lower: Seq<Seq<char>>,
    labels_lower: Seq<Seq<char>>,
) -> Seq<SuggestionView> {
    match mode {
        CommandPaletteMode::Intent => intent_suggestions(input, q, recents, recents_lower),
        CommandPaletteMode::Command => command_rows(q, input.len() == 0, 0),
        CommandPaletteMode::Navigation => nav_rows(q, input.len() == 0, labels_lower, 0),
    }
}

/// The navigation labels, lowercased.
pub open spec fn nav_labels_lower() -> Seq<Seq<char>> {
    Seq::new(nav_count(), |k: int| unicode_lower(nav_table()[k].0))
}

fn command_entry(k: usize) -> (r: (&'static str, &'static str))
    requires
        k < 9,
    ensures
        (r.0@, r.1@) == command_table()[k as int],
{
    match k {
        0 => ("/scan", "Scan a directory for files (Ingest)"),
        1 => ("/query", "Query processed data"),
        2 => ("/approve", "Review approvals"),
        3 => ("/workspace", "Switch workspace"),
        4 => ("/quarantine", "Open quarantine (Review)"),
        5 => ("/catalog", "Open outputs catalog (Run)"),
        6 => ("/pipelines", "Open outputs catalog (Run)"),
        7 => ("/jobs", "View jobs (Run)"),
        _ => ("/help", "Show help"),
    }
}

fn nav_entry(k: usize) -> (r: (&'static str, &'static str, TuiMode))
    requires
        k < 6,
    ensures
        (r.0@, r.1@, r.2) == nav_table()[k as int],
{
    match k {
        0 => ("Home", "Quick start and status dashboard", TuiMode::Home),
        1 => ("Ingest", "Sources, selection, rules and validation", TuiMode::Ingest),
        2 => ("Run", "Jobs and outputs", TuiMode::Run),
        3 => ("Review", "Triage, approvals and sessions", TuiMode::Review),
        4 => ("Query", "SQL query console", TuiMode::Query),
        _ => ("Settings", "Application settings", TuiMode::Settings),
    }
}

/// The suggestions for a mode and input, given the lowercased input, the
/// recent intents and their lowercased forms, and the lowercased navigation
/// labels.
pub fn suggestions_from_lowered(
    mode: CommandPaletteMode,
    input: &str,
    input_lower: &str,
    recents: &Vec<String>,
    recents_lower: &Vec<String>,
    labels_lower: &Vec<String>,
) -> (r: Vec<CommandSuggestion>)
    requires
        recents_lower@.len() == recents@.len(),
        labels_lower@.len() == nav_count(),
    ensures
        suggestions_view(r@) == suggestions_spec(
            mode,
            input@,
            input_lower@,
            strings_view(recents@),
            strings_view(recents_lower@),
            strings_view(labels_lower@),
        ),
{
    let mut out: Vec<CommandSuggestion> = Vec::new();
    let empty = str_chars(input).len() == 0;
    let ghost q = input_lower@;
    match mode {
        CommandPaletteMode::Intent => {
            let ghost rv = strings_view(recents@);
            let ghost lv = strings_view(recents_lower@);
            if !empty {
                out.push(
                    CommandSuggestion {
                        text: concat3("Find: \"", input, "\""),
                        description: owned("Start new intent pipeline with file discovery"),
                        action: CommandAction::StartIntent(owned(input)),
                    },
                );
            }
            let ghost lead = suggestions_view(out@);
            proof {
                if !empty {
                    assert(lead =~= seq![intent_suggestion(input@)]);
                } else {
                    assert(lead =~= Seq::<SuggestionView>::empty());
                }
            }
            let mut i: usize = 0;
            while i < recents.len() && out.len() < 8
                invariant
                    i <= recents@.len(),
                    recents_lower@.len() == recents@.len(),
                    rv == strings_view(recents@),
                    lv == strings_view(recents_lower@),
                    q == input_lower@,
                    empty == (input@.len() == 0),
                    lead.len() <= 1,
                    lead.len() <= suggestions_view(out@).len(),
                    lead + recent_tail(rv, lv, q, empty, 0, lead.len()) == suggestions_view(out@) + (
                    if out@.len() >= 8 {
                        Seq::<SuggestionView>::empty()
                    } else {
                        recent_tail(rv, lv, q, empty, i as nat, out@.len())
                    }),
                decreases recents@.len() - i,
            {
                let m = str_contains(recents_lower[i].as_str(), input_lower) || empty;
                let ghost before = suggestions_view(out@);
                if m {
                    let rec = &recents[i];
                    out.push(
                        CommandSuggestion {
                            text: concat3("Recent: \"", rec.as_str(), "\""),
                            description: owned("Re-run previous intent"),
                            action: CommandAction::StartIntent(owned(rec.as_str())),
                        },
                    );
                    proof {
                        assert(suggestions_view(out@) =~= before + seq![recent_suggestion(rv[i as int])]);
                    }
                } else {
                    proof {
                        assert(suggestions_view(out@) =~= before);
                    }
                }
                proof {
                    let tail_after = if out@.len() >= 8 {
                        Seq::<SuggestionView>::empty()
                    } else {
                        recent_tail(rv, lv, q, empty, (i + 1) as nat, out@.len())
                    };
                    let head = if m {
                        seq![recent_suggestion(rv[i as int])]
                    } else {
                        Seq::<SuggestionView>::empty()
                    };
                    assert(recent_tail(rv, lv, q, empty, i as nat, before.len()) == head + tail_after);
                    assert(before + (head + tail_after) =~= suggestions_view(out@) + tail_after);
                }
                i += 1;
            }
            proof {
                if out@.len() < 8 {
                    assert(recent_tail(rv, lv, q, empty, i as nat, out@.len()) =~= Seq::<
                        SuggestionView,
                    >::empty());
                }
                assert(suggestions_view(out@) + Seq::<SuggestionView>::empty() =~= suggestions_view(
                    out@,
                ));
            }
            let ghost mid = suggestions_view(out@);
            if empty {
                out.push(
                    CommandSuggestion {
                        text: owned("Example: \"find all sales files\""),
                        description: owned("Discover files matching a pattern"),
                        action: CommandAction::StartIntent(owned("find all sales files")),
                    },
                );
                out.push(
                    CommandSuggestion {
                        text: owned("Example: \"process csv files in /data\""),
                        description: owned("Find and process specific file types"),
                        action: CommandAction::StartIntent(owned("process csv files in /data")),
                    },
                );
                proof {
                    assert(suggestions_view(out@) =~= mid + example_suggestions());
                }
            } else {
                proof {
                    assert(suggestions_view(out@) =~= mid + Seq::<SuggestionView>::empty());
                }
            }
        },
        CommandPaletteMode::Command => {
            let mut k: usize = 0;
            proof {
                assert(suggestions_view(out@) + command_rows(q, empty, 0) =~= command_rows(
                    q,
                    empty,
                    0,
                ));
            }
            while k < 9
                invariant
                    k <= 9,
                    q == input_lower@,
                    empty == (input@.len() == 0),
                    suggestions_view(out@) + command_rows(q, empty, k as nat) == command_rows(
                        q,
                        empty,
                        0,
                    ),
                decreases 9 - k,
            {
                let (cmd, desc) = command_entry(k);
                let ghost before = suggestions_view(out@);
                if str_contains(cmd, input_lower) || empty {
                    out.push(
                        CommandSuggestion {
                            text: owned(cmd),
                            description: owned(desc),
                            action: CommandAction::RunCommand(owned(cmd)),
                        },
                    );
                    proof {
                        let row = SuggestionView {
                            text: cmd@,
                            description: desc@,
                            action: ActionView::RunCommand(cmd@),
                        };
                        assert(suggestions_view(out@) =~= before.push(row));
                        assert(command_rows(q, empty, k as nat) == seq![row] + command_rows(
                            q,
                            empty,
                            (k + 1) as nat,
                        ));
                        assert(before + (seq![row] + command_rows(q, empty, (k + 1) as nat))
                            =~= before.push(row) + command_rows(q, empty, (k + 1) as nat));
                    }
                } else {
                    proof {
                        assert(suggestions_view(out@) =~= before);
                    }
                }
                k += 1;
            }
            proof {
                assert(suggestions_view(out@) + Seq::<SuggestionView>::empty() =~= suggestions_view(
                    out@,
                ));
            }
        },
        CommandPaletteMode::Navigation => {
            let ghost lv = strings_view(labels_lower@);
            let mut k: usize = 0;
            proof {
                assert(suggestions_view(out@) + nav_rows(q, empty, lv, 0) =~= nav_rows(
                    q,
                    empty,
                    lv,
                    0,
                ));
            }
            while k < 6
                invariant
                    k <= 6,
                    q == input_lower@,
                    labels_lower@.len() == nav_count(),
                    lv == strings_view(labels_lower@),
                    empty == (input@.len() == 0),
                    suggestions_view(out@) + nav_rows(q, empty, lv, k as nat) == nav_rows(
                        q,
                        empty,
                        lv,
                        0,
                    ),
                decreases 6 - k,
            {
                let (label, desc, mode) = nav_entry(k);
                let ghost before = suggestions_view(out@);
                if str_contains(labels_lower[k].as_str(), input_lower) || empty {
                    out.push(
                        CommandSuggestion {
                            text: owned(label),
                            description: owned(desc),
                            action: CommandAction::Navigate(mode),
                        },
                    );
                    proof {
                        let row = SuggestionView {
                            text: label@,
                            description: desc@,
                            action: ActionView::Navigate(mode),
                        };
                        assert(suggestions_view(out@) =~= before.push(row));
                        assert(nav_rows(q, empty, lv, k as nat) == seq![row] + nav_rows(
                            q,
                            empty,
                            lv,
                            (k + 1) as nat,
                        ));
                        assert(before + (seq![row] + nav_rows(q, empty, lv, (k + 1) as nat))
                            =~= before.push(row) + nav_rows(q, empty, lv, (k + 1) as nat));
                    }
                } else {
                    proof {
                        assert(suggestions_view(out@) =~= before);
                    }
                }
                k += 1;
            }
            proof {
                assert(suggestions_view(out@) + Seq::<SuggestionView>::empty() =~= suggestions_view(
                    out@,
                ));
            }
        },
    }
    out
}

fn lower_all(v: &Vec<String>) -> (r: Vec<String>)
    ensures
        r@.len() == v@.len(),
        forall|k: int| 0 <= k < v@.len() ==> #[trigger] r@[k]@ == unicode_lower(v@[k]@),
{
    let mut r: Vec<String> = Vec::new();
    let mut i: usize = 0;
    while i < v.len()
        invariant
            i <= v@.len(),
            r@.len() == i,
            forall|k: int| 0 <= k < i ==> #[trigger] r@[k]@ == unicode_lower(v@[k]@),
        decreases v@.len() - i,
    {
        r.push(to_lowercase(v[i].as_str()));
        i += 1;
    }
    r
}

fn nav_labels_lowered() -> (r: Vec<String>)
    ensures
        strings_view(r@) == nav_labels_lower(),
        r@.len() == nav_count(),
{
    let mut r: Vec<String> = Vec::new();
    let mut k: usize = 0;
    while k < 6
        invariant
            k <= 6,
            r@.len() == k,
            forall|j: int| 0 <= j < k ==> #[trigger] r@[j]@ == unicode_lower(nav_table()[j].0),
        decreases 6 - k,
    {
        let (label, _desc, _mode) = nav_entry(k);
        r.push(to_lowercase(label));
        k += 1;
    }
    proof {
        assert(strings_view(r@) =~= nav_labels_lower());
    }
    r
}

// ---------------------------------------------------------------------------
// The palette
// ---------------------------------------------------------------------------

/// Most recent intents kept.
pub open spec fn history_limit() -> nat {
    10
}

/// The history after recording `x`: `x` first, then the other entries, at
/// most ten in all.
pub open spec fn history_with(v: Seq<Seq<char>>, x: Seq<char>) -> Seq<Seq<char>> {
    let all = seq![x] + without(v, x);
    if all.len() > history_limit() {
        all.take(history_limit() as int)
    } else {
        all
    }
}

/// State of the command palette.
#[derive(Debug, Clone)]
pub struct CommandPaletteState {
    pub visible: bool,
    pub input: String,
    /// Cursor position in the input (character index)
    pub cursor: usize,
    pub suggestions: Vec<CommandSuggestion>,
    pub selected_suggestion: usize,
    pub mode: CommandPaletteMode,
    /// Recent intents, newest first
    pub recent_intents: Vec<String>,
}

impl CommandPaletteState {
    /// The cursor stands within the input.
    pub open spec fn wf(&self) -> bool {
        self.cursor <= self.input@.len()
    }

    /// The suggestions the current mode and input call for.
    pub open spec fn expected_suggestions(&self) -> Seq<SuggestionView> {
        suggestions_spec(
            self.mode,
            self.input@,
            unicode_lower(self.input@),
            strings_view(self.recent_intents@),
            strings_view(self.recent_intents@).map_values(|s: Seq<char>| unicode_lower(s)),
            nav_labels_lower(),
        )
    }

    /// A closed palette in intent mode with empty input and no history.
    pub fn new() -> (r: Self)
        ensures
            !r.visible,
            r.input@.len() == 0,
            r.cursor == 0,
            r.suggestions@.len() == 0,
            r.selected_suggestion == 0,
            r.mode == CommandPaletteMode::Intent,
            r.recent_intents@.len() == 0,
    {
        CommandPaletteState {
            visible: false,
            input: String::new(),
            cursor: 0,
            suggestions: Vec::new(),
            selected_suggestion: 0,
            mode: CommandPaletteMode::Intent,
            recent_intents: Vec::new(),
        }
    }

    /// Recomputes the suggestions for the current mode and input, and selects
    /// the first.
    pub fn update_suggestions(&mut self)
        ensures
            suggestions_view(final(self).suggestions@) == old(self).expected_suggestions(),
            final(self).selected_suggestion == 0,
            final(self).visible == old(self).visible,
            final(self).input == old(self).input,
            final(self).cursor == old(self).cursor,
            final(self).mode == old(self).mode,
            final(self).recent_intents == old(self).recent_intents,
    {
        let input_lower = to_lowercase(self.input.as_str());
        let recents_lower = lower_all(&self.recent_intents);
        let labels_lower = nav_labels_lowered();
        proof {
            assert(strings_view(recents_lower@) =~= strings_view(self.recent_intents@).map_values(
                |s: Seq<char>| unicode_lower(s),
            ));
        }
        self.suggestions = suggestions_from_lowered(
            self.mode,
            self.input.as_str(),
            input_lower.as_str(),
            &self.recent_intents,
            &recents_lower,
            &labels_lower,
        );
        self.selected_suggestion = 0;
    }

    /// Opens the palette in a mode with empty input.
    pub fn open(&mut self, mode: CommandPaletteMode)
        ensures
            final(self).visible,
            final(self).mode == mode,
            final(self).input@.len() == 0,
            final(self).cursor == 0,
            final(self).selected_suggestion == 0,
            final(self).recent_intents == old(self).recent_intents,
            suggestions_view(final(self).suggestions@) == final(self).expected_suggestions(),
    {
        self.visible = true;
        self.mode = mode;
        self.input = String::new();
        self.cursor = 0;
        self.selected_suggestion = 0;
        self.update_suggestions();
    }

    /// Closes the palette and clears input and suggestions.
    pub fn close(&mut self)
        ensures
            !final(self).visible,
            final(self).input@.len() == 0,
            final(self).cursor == 0,
            final(self).suggestions@.len() == 0,
            final(self).selected_suggestion == 0,
            final(self).mode == old(self).mode,
            final(self).recent_intents == old(self).recent_intents,
    {
        self.visible = false;
        self.input = String::new();
        self.cursor = 0;
        self.suggestions = Vec::new();
        self.selected_suggestion = 0;
    }

    /// Inserts a character at the cursor and moves the cursor past it.
    pub fn insert_char(&mut self, c: char)
        requires
            old(self).wf(),
        ensures
            final(self).wf(),
            final(self).input@ == old(self).input@.insert(old(self).cursor as int, c),
            final(self).cursor == old(self).cursor + 1,
            final(self).mode == old(self).mode,
            final(self).visible == old(self).visible,
            final(self).recent_intents == old(self).recent_intents,
            final(self).selected_suggestion == 0,
            suggestions_view(final(self).suggestions@) == final(self).expected_suggestions(),
    {
        let chars = str_chars(self.input.as_str());
        let mut v: Vec<char> = Vec::new();
        let mut i: usize = 0;
        while i < chars.len()
            invariant
                i <= chars@.len(),
                chars@ == self.input@,
                self.cursor <= chars@.len(),
                v@ == (if i <= self.cursor {
                    chars@.subrange(0, i as int)
                } else {
                    chars@.subrange(0, i as int).insert(self.cursor as int, c)
                }),
            decreases chars@.len() - i,
        {
            if i == self.cursor {
                v.push(c);
            }
            v.push(chars[i]);
            i += 1;
            proof {
                if i <= self.cursor {
                    assert(v@ =~= chars@.subrange(0, i as int));
                } else {
                    assert(v@ =~= chars@.subrange(0, i as int).insert(self.cursor as int, c));
                }
            }
        }
        if self.cursor == chars.len() {
            v.push(c);
        }
        let vlen = v.len();
        proof {
            assert(chars@.subrange(0, chars@.len() as int) =~= chars@);
            assert(v@ =~= chars@.insert(self.cursor as int, c));
        }
        self.input = string_from_chars(v.as_slice());
        self.cursor = self.cursor + 1;
        self.update_suggestions();
    }

    /// Removes the character at `at` from the input.
    fn remove_char_at(&mut self, at: usize)
        requires
            at < old(self).input@.len(),
        ensures
            final(self).input@ == old(self).input@.remove(at as int),
            final(self).cursor == old(self).cursor,
            final(self).mode == old(self).mode,
            final(self).visible == old(self).visible,
            final(self).recent_intents == old(self).recent_intents,
            final(self).suggestions == old(self).suggestions,
            final(self).selected_suggestion == old(self).selected_suggestion,
    {
        let chars = str_chars(self.input.as_str());
        let mut v: Vec<char> = Vec::new();
        let mut i: usize = 0;
        while i < chars.len()
            invariant
                i <= chars@.len(),
                at < chars@.len(),
                v@ == (if i <= at {
                    chars@.subrange(0, i as int)
                } else {
                    chars@.subrange(0, i as int).remove(at as int)
                }),
            decreases chars@.len() - i,
        {
            if i != at {
                v.push(chars[i]);
            }
            i += 1;
            proof {
                if i <= at {
                    assert(v@ =~= chars@.subrange(0, i as int));
                } else {
                    assert(v@ =~= chars@.subrange(0, i as int).remove(at as int));
                }
            }
        }
        proof {
            assert(chars@.subrange(0, chars@.len() as int) =~= chars@);
        }
        self.input = string_from_chars(v.as_slice());
    }

    /// Deletes the character before the cursor, if any.
    pub fn backspace(&mut self)
        requires
            old(self).wf(),
        ensures
            final(self).wf(),
            old(self).cursor > 0 ==> final(self).input@ == old(self).input@.remove(
                old(self).cursor - 1,
            ) && final(self).cursor == old(self).cursor - 1 && final(self).selected_suggestion == 0
                && suggestions_view(final(self).suggestions@) == final(self).expected_suggestions(),
            old(self).cursor == 0 ==> *final(self) == *old(self),
            final(self).mode == old(self).mode,
            final(self).recent_intents == old(self).recent_intents,
    {
        if self.cursor > 0 {
            self.cursor = self.cursor - 1;
            let at = self.cursor;
            self.remove_char_at(at);
            self.update_suggestions();
        }
    }

    /// Deletes the character at the cursor, if any.
    pub fn delete(&mut self)
        requires
            old(self).wf(),
        ensures
            final(self).wf(),
            final(self).cursor == old(self).cursor,
            old(self).cursor < old(self).input@.len() ==> final(self).input@ == old(self).input@.remove(
                old(self).cursor as int,
            ) && final(self).selected_suggestion == 0 && suggestions_view(final(self).suggestions@)
                == final(self).expected_suggestions(),
            old(self).cursor == old(self).input@.len() ==> *final(self) == *old(self),
            final(self).mode == old(self).mode,
            final(self).recent_intents == old(self).recent_intents,
    {
        let len = str_chars(self.input.as_str()).len();
        if self.cursor < len {
            let at = self.cursor;
            self.remove_char_at(at);
            self.update_suggestions();
        }
    }

    pub fn cursor_left(&mut self)
        ensures
            final(self).cursor == (if old(self).cursor > 0 {
                (old(self).cursor - 1) as usize
            } else {
                0
            }),
            final(self).input == old(self).input,
            final(self).suggestions == old(self).suggestions,
            final(self).selected_suggestion == old(self).selected_suggestion,
            final(self).mode == old(self).mode,
            final(self).visible == old(self).visible,
            final(self).recent_intents == old(self).recent_intents,
    {
        if self.cursor > 0 {
            self.cursor -= 1;
        }
    }

    pub fn cursor_right(&mut self)
        ensures
            final(self).cursor == (if old(self).cursor < old(self).input@.len() {
                (old(self).cursor + 1) as usize
            } else {
                old(self).cursor
            }),
            final(self).input == old(self).input,
            final(self).suggestions == old(self).suggestions,
            final(self).selected_suggestion == old(self).selected_suggestion,
            final(self).mode == old(self).mode,
            final(self).visible == old(self).visible,
            final(self).recent_intents == old(self).recent_intents,
    {
        let len = str_chars(self.input.as_str()).len();
        if self.cursor < len {
            self.cursor += 1;
        }
    }

    pub fn cursor_home(&mut self)
        ensures
            final(self).cursor == 0,
            final(self).input == old(self).input,
            final(self).suggestions == old(self).suggestions,
            final(self).selected_suggestion == old(self).selected_suggestion,
            final(self).mode == old(self).mode,
            final(self).visible == old(self).visible,
            final(self).recent_intents == old(self).recent_intents,
    {
        self.cursor = 0;
    }

    pub fn cursor_end(&mut self)
        ensures
            final(self).cursor == old(self).input@.len(),
            final(self).input == old(self).input,
            final(self).suggestions == old(self).suggestions,
            final(self).selected_suggestion == old(self).selected_suggestion,
            final(self).mode == old(self).mode,
            final(self).visible == old(self).visible,
            final(self).recent_intents == old(self).recent_intents,
    {
        self.cursor = str_chars(self.input.as_str()).len();
    }

    /// Clears the input and recomputes the suggestions.
    pub fn clear_input(&mut self)
        ensures
            final(self).input@.len() == 0,
            final(self).cursor == 0,
            final(self).selected_suggestion == 0,
            suggestions_view(final(self).suggestions@) == final(self).expected_suggestions(),
            final(self).mode == old(self).mode,
            final(self).visible == old(self).visible,
            final(self).recent_intents == old(self).recent_intents,
    {
        self.input = String::new();
        self.cursor = 0;
        self.update_suggestions();
    }

    pub fn select_prev(&mut self)
        ensures
            final(self).selected_suggestion == (if old(self).suggestions@.len() > 0
                && old(self).selected_suggestion > 0 {
                (old(self).selected_suggestion - 1) as usize
            } else {
                old(self).selected_suggestion
            }),
            final(self).suggestions == old(self).suggestions,
            final(self).input == old(self).input,
            final(self).cursor == old(self).cursor,
            final(self).mode == old(self).mode,
    {
        if self.suggestions.len() > 0 && self.selected_suggestion > 0 {
            self.selected_suggestion -= 1;
        }
    }

    pub fn select_next(&mut self)
        ensures
            final(self).selected_suggestion == (if old(self).suggestions@.len() > 0
                && old(self).selected_suggestion < old(self).suggestions@.len() - 1 {
                (old(self).selected_suggestion + 1) as usize
            } else {
                old(self).selected_suggestion
            }),
            final(self).suggestions == old(self).suggestions,
            final(self).input == old(self).input,
            final(self).cursor == old(self).cursor,
            final(self).mode == old(self).mode,
    {
        if self.suggestions.len() > 0 && self.selected_suggestion < self.suggestions.len() - 1 {
            self.selected_suggestion += 1;
        }
    }

    /// Switches to the next mode and recomputes the suggestions.
    pub fn cycle_mode(&mut self)
        ensures
            final(self).mode == old(self).mode.next_spec(),
            final(self).input == old(self).input,
            final(self).cursor == old(self).cursor,
            final(self).selected_suggestion == 0,
            suggestions_view(final(self).suggestions@) == final(self).expected_suggestions(),
            final(self).recent_intents == old(self).recent_intents,
    {
        self.mode = self.mode.next();
        self.update_suggestions();
    }

    /// The action of the selected suggestion, if there is one.
    pub fn selected_action(&self) -> (r: Option<&CommandAction>)
        ensures
            self.selected_suggestion < self.suggestions@.len() ==> (r matches Some(a) && *a
                == self.suggestions@[self.selected_suggestion as int].action),
            self.selected_suggestion >= self.suggestions@.len() ==> r is None,
    {
        if self.selected_suggestion < self.suggestions.len() {
            Some(&self.suggestions[self.selected_suggestion].action)
        } else {
            None
        }
    }

    /// Records an intent: it moves to the front, earlier copies go, and at
    /// most ten are kept.
    pub fn add_to_history(&mut self, intent: String)
        ensures
            strings_view(final(self).recent_intents@) == history_with(
                strings_view(old(self).recent_intents@),
                intent@,
            ),
            final(self).input == old(self).input,
            final(self).cursor == old(self).cursor,
            final(self).mode == old(self).mode,
            final(self).suggestions == old(self).suggestions,
            final(self).selected_suggestion == old(self).selected_suggestion,
            final(self).visible == old(self).visible,
    {
        let ghost old_view = strings_view(self.recent_intents@);
        let ghost x = intent@;
        let mut kept: Vec<String> = Vec::new();
        let mut i: usize = 0;
        while i < self.recent_intents.len()
            invariant
                i <= self.recent_intents@.len(),
                old_view == strings_view(self.recent_intents@),
                x == intent@,
                strings_view(kept@) == without(old_view.subrange(0, i as int), x),
            decreases self.recent_intents@.len() - i,
        {
            proof {
                assert(old_view.subrange(0, i + 1).drop_last() =~= old_view.subrange(0, i as int));
            }
            let ghost before = strings_view(kept@);
            if !str_eq(self.recent_intents[i].as_str(), intent.as_str()) {
                kept.push(owned(self.recent_intents[i].as_str()));
                proof {
                    assert(strings_view(kept@) =~= before.push(old_view[i as int]));
                }
            }
            i += 1;
        }
        proof {
            assert(old_view.subrange(0, old_view.len() as int) =~= old_view);
        }
        let mut next: Vec<String> = Vec::new();
        next.push(intent);
        let mut j: usize = 0;
        while j < kept.len() && next.len() < 10
            invariant
                j <= kept@.len(),
                next@.len() == j + 1,
                next@.len() <= 10,
                strings_view(next@) == (seq![x] + strings_view(kept@)).take(j + 1),
            decreases kept@.len() - j,
        {
            next.push(owned(kept[j].as_str()));
            j += 1;
            proof {
                assert(strings_view(next@) =~= (seq![x] + strings_view(kept@)).take(j + 1));
            }
        }
        proof {
            let all = seq![x] + strings_view(kept@);
            if all.len() > 10 {
                assert(strings_view(next@) =~= all.take(10));
            } else {
                assert(strings_view(next@) =~= all);
            }
        }
        self.recent_intents = next;
    }
}

impl Default for CommandPaletteState {
    fn default() -> (r: Self)
        ensures
            !r.visible,
            r.input@.len() == 0,
            r.cursor == 0,
            r.suggestions@.len() == 0,
            r.selected_suggestion == 0,
            r.mode == CommandPaletteMode::Intent,
            r.recent_intents@.len() == 0,
    {
        CommandPaletteState::new()
    }
}

// ---------------------------------------------------------------------------
// Laws
// ---------------------------------------------------------------------------

/// After recording an intent, it is the newest entry, it appears once, the
/// history holds at most ten entries, and every entry was recorded before.
pub proof fn law_history_records_once(v: Seq<Seq<char>>, x: Seq<char>)
    ensures
        history_with(v, x).len() >= 1,
        history_with(v, x)[0] == x,
        history_with(v, x).len() <= history_limit(),
        forall|k: int| 1 <= k < history_with(v, x).len() ==> #[trigger] history_with(v, x)[k] != x,
        forall|k: int| 1 <= k < history_with(v, x).len() ==> v.contains(#[trigger] history_with(v, x)[k]),
{
    crate::text::lemma_without_excludes(v, x);
    let w = without(v, x);
    let all = seq![x] + w;
    assert forall|k: int| 1 <= k < history_with(v, x).len() implies #[trigger] history_with(v, x)[k] != x
        && v.contains(history_with(v, x)[k]) by {
        assert(history_with(v, x)[k] == all[k]);
        assert(all[k] == w[k - 1]);
        assert(w.contains(w[k - 1]));
    }
}


// ---------------------------------------------------------------------------
// Laws of the suggestion lists
// ---------------------------------------------------------------------------

/// The suggestion a slash command becomes.
pub open spec fn command_row(e: (Seq<char>, Seq<char>)) -> SuggestionView {
    SuggestionView { text: e.0, description: e.1, action: ActionView::RunCommand(e.0) }
}

/// A command is offered: the input is empty, or the command contains the
/// lowercased input.
pub open spec fn command_offered(q: Seq<char>, empty: bool) -> spec_fn((Seq<char>, Seq<char>)) -> bool {
    |e: (Seq<char>, Seq<char>)| seq_contains(e.0, q) || empty
}

proof fn lemma_command_rows_from(q: Seq<char>, empty: bool, k: nat)
    requires
        k <= 9,
    ensures
        command_rows(q, empty, k) == command_table().subrange(k as int, 9).filter(
            command_offered(q, empty),
        ).map_values(|e: (Seq<char>, Seq<char>)| command_row(e)),
    decreases 9 - k,
{
    let t = command_table();
    let p = command_offered(q, empty);
    if k >= 9 {
        assert(t.subrange(k as int, 9) =~= Seq::<(Seq<char>, Seq<char>)>::empty());
        reveal(Seq::filter);
        assert(t.subrange(k as int, 9).filter(p) =~= Seq::<(Seq<char>, Seq<char>)>::empty());
    } else {
        lemma_command_rows_from(q, empty, k + 1);
        let rest = t.subrange(k + 1 as int, 9);
        assert(t.subrange(k as int, 9) =~= seq![t[k as int]] + rest);
        rest.lemma_filter_prepend(t[k as int], p);
        let head = if p(t[k as int]) {
            seq![t[k as int]]
        } else {
            Seq::<(Seq<char>, Seq<char>)>::empty()
        };
        assert((head + rest.filter(p)).map_values(|e: (Seq<char>, Seq<char>)| command_row(e)) =~= head.map_values(
            |e: (Seq<char>, Seq<char>)| command_row(e),
        ) + rest.filter(p).map_values(|e: (Seq<char>, Seq<char>)| command_row(e)));
    }
}

/// Law: the command mode lists the slash commands that contain the
/// lowercased input (all nine when nothing is typed), in table order.
pub proof fn law_command_suggestions_filter(st: CommandPaletteState)
    requires
        st.mode == CommandPaletteMode::Command,
    ensures
        st.expected_suggestions() == command_table().filter(
            command_offered(unicode_lower(st.input@), st.input@.len() == 0),
        ).map_values(|e: (Seq<char>, Seq<char>)| command_row(e)),
{
    lemma_command_rows_from(unicode_lower(st.input@), st.input@.len() == 0, 0);
    assert(command_table().subrange(0, 9) =~= command_table());
}

/// The suggestion a screen of the navigation table becomes.
pub open spec fn nav_row(e: (Seq<char>, Seq<char>, TuiMode)) -> SuggestionView {
    SuggestionView { text: e.0, description: e.1, action: ActionView::Navigate(e.2) }
}

/// A screen is offered: the input is empty, or its lowercased label contains
/// the lowercased input.
pub open spec fn nav_offered(q: Seq<char>, empty: bool) -> spec_fn(
    (Seq<char>, Seq<char>, TuiMode),
) -> bool {
    |e: (Seq<char>, Seq<char>, TuiMode)| seq_contains(unicode_lower(e.0), q) || empty
}

#[verifier::rlimit(40)]
proof fn lemma_nav_rows_from(q: Seq<char>, empty: bool, k: nat)
    requires
        k <= 6,
    ensures
        nav_rows(q, empty, nav_labels_lower(), k) == nav_table().subrange(k as int, 6).filter(
            nav_offered(q, empty),
        ).map_values(|e: (Seq<char>, Seq<char>, TuiMode)| nav_row(e)),
    decreases 6 - k,
{
    let t = nav_table();
    let p = nav_offered(q, empty);
    if k >= 6 {
        assert(t.subrange(k as int, 6) =~= Seq::<(Seq<char>, Seq<char>, TuiMode)>::empty());
        reveal(Seq::filter);
        assert(t.subrange(k as int, 6).filter(p) =~= Seq::<(Seq<char>, Seq<char>, TuiMode)>::empty());
    } else {
        lemma_nav_rows_from(q, empty, k + 1);
        let rest = t.subrange(k + 1 as int, 6);
        assert(t.subrange(k as int, 6) =~= seq![t[k as int]] + rest);
        rest.lemma_filter_prepend(t[k as int], p);
        assert(nav_labels_lower()[k as int] == unicode_lower(t[k as int].0));
        let head = if p(t[k as int]) {
            seq![t[k as int]]
        } else {
            Seq::<(Seq<char>, Seq<char>, TuiMode)>::empty()
        };
        assert((head + rest.filter(p)).map_values(|e: (Seq<char>, Seq<char>, TuiMode)| nav_row(e))
            =~= head.map_values(|e: (Seq<char>, Seq<char>, TuiMode)| nav_row(e)) + rest.filter(
            p,
        ).map_values(|e: (Seq<char>, Seq<char>, TuiMode)| nav_row(e)));
    }
}

/// Law: the navigation mode lists the screens whose lowercased label
/// contains the lowercased input (all six when nothing is typed), in table
/// order.
pub proof fn law_navigation_suggestions_filter(st: CommandPaletteState)
    requires
        st.mode == CommandPaletteMode::Navigation,
    ensures
        st.expected_suggestions() == nav_table().filter(
            nav_offered(unicode_lower(st.input@), st.input@.len() == 0),
        ).map_values(|e: (Seq<char>, Seq<char>, TuiMode)| nav_row(e)),
{
    lemma_nav_rows_from(unicode_lower(st.input@), st.input@.len() == 0, 0);
    assert(nav_table().subrange(0, 6) =~= nav_table());
}

proof fn lemma_recent_tail_len(
    recents: Seq<Seq<char>>,
    lowered: Seq<Seq<char>>,
    q: Seq<char>,
    i: nat,
    count: nat,
)
    requires
        count < intent_limit(),
        i <= recents.len(),
    ensures
        recent_tail(recents, lowered, q, true, i, count).len() == min_nat(
            (recents.len() - i) as nat,
            (intent_limit() - count) as nat,
        ),
    decreases recents.len() - i,
{
    if i < recents.len() && count + 1 < intent_limit() {
        lemma_recent_tail_len(recents, lowered, q, i + 1, count + 1);
    }
}

/// Law: opened with nothing typed, the command mode lists all nine slash
/// commands in order, and the intent mode lists the recent intents (at most
/// eight) followed by the two examples, and the navigation mode lists all
/// six screens in order.
pub proof fn law_opened_suggestions(st: CommandPaletteState)
    requires
        st.input@.len() == 0,
    ensures
        st.mode == CommandPaletteMode::Command ==> st.expected_suggestions() == command_table().map_values(
            |e: (Seq<char>, Seq<char>)| command_row(e),
        ),
        st.mode == CommandPaletteMode::Intent ==> st.expected_suggestions().len() == min_nat(
            st.recent_intents@.len(),
            intent_limit(),
        ) + 2,
        st.mode == CommandPaletteMode::Navigation ==> st.expected_suggestions()
            == nav_table().map_values(|e: (Seq<char>, Seq<char>, TuiMode)| nav_row(e)),
{
    if st.mode == CommandPaletteMode::Navigation {
        law_navigation_suggestions_filter(st);
        let p = nav_offered(unicode_lower(st.input@), true);
        assert(nav_table().filter(p) =~= nav_table()) by {
            reveal(Seq::filter);
            reveal_with_fuel(Seq::filter, 8);
        }
    }
    if st.mode == CommandPaletteMode::Command {
        law_command_suggestions_filter(st);
        let p = command_offered(unicode_lower(st.input@), true);
        assert(command_table().filter(p) =~= command_table()) by {
            reveal(Seq::filter);
            reveal_with_fuel(Seq::filter, 10);
        }
    }
    if st.mode == CommandPaletteMode::Intent {
        let rs = strings_view(st.recent_intents@);
        lemma_recent_tail_len(
            rs,
            rs.map_values(|s: Seq<char>| unicode_lower(s)),
            unicode_lower(st.input@),
            0,
            0,
        );
    }
}

} // verus!

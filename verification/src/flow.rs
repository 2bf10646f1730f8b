//! Scripted TUI flows: the flow format, its validation, and the key notation
//! ("Ctrl+u", "Shift+Tab", "PageDown", "F5") with its parser and printer.
use vstd::prelude::*;
use crate::text::{char_is_whitespace, char_to_ascii_lower, char_to_ascii_upper, chars_eq, decimal, is_ascii_lower, is_unicode_whitespace, lower_seq, owned, parse_u8, push_char, push_str, str_chars, string_from_chars, trim_chars, trim_seq, u64_to_decimal, unsigned_literal, upper_char};

verus! {

// ---------------------------------------------------------------------------
// The flow format
// ---------------------------------------------------------------------------

/// A scripted flow: a format version, an environment and the steps.
#[derive(Debug, Clone)]
pub struct TuiFlow {
    pub version: u32,
    pub env: FlowEnv,
    pub steps: Vec<FlowStep>,
}

/// Environment a flow runs in.
#[derive(Debug, Clone)]
pub struct FlowEnv {
    pub casparian_home: Option<String>,
    pub database: Option<String>,
    pub terminal: Option<TerminalSize>,
    pub seed: Option<u64>,
    pub fixture: Option<FlowFixture>,
}

/// A named fixture directory.
#[derive(Debug, Clone)]
pub struct FlowFixture {
    pub name: String,
    pub path: String,
}

/// Terminal size in cells.
#[derive(Debug, Clone, Copy, PartialEq, Eq, Structural)]
pub struct TerminalSize {
    pub width: u16,
    pub height: u16,
}

/// One step of a flow.
#[derive(Debug, Clone)]
pub enum FlowStep {
    /// Press a key
    Key { key: FlowKey, label: Option<String> },
    /// Type text
    Text { text: String, label: Option<String> },
    /// Wait for ticks, milliseconds, or until an assertion holds
    Wait {
        ticks: Option<u32>,
        ms: Option<u64>,
        until: Option<FlowAssertion>,
        label: Option<String>,
    },
    /// Check the screen
    Assert { assert: FlowAssertion, label: Option<String> },
}

/// Checks on the rendered screen: regular expressions that must or must not
/// match the plain text, the style mask, the layout signature and the UI
/// signature key, and an exact UI signature key.
#[derive(Debug, Clone)]
pub struct FlowAssertion {
    pub plain_contains: Vec<String>,
    pub plain_not_contains: Vec<String>,
    pub mask_contains: Vec<String>,
    pub mask_not_contains: Vec<String>,
    pub layout_contains: Vec<String>,
    pub layout_not_contains: Vec<String>,
    pub ui_signature_key: Option<String>,
    pub ui_signature_contains: Vec<String>,
    pub ui_signature_not_contains: Vec<String>,
}

impl FlowAssertion {
    /// No check at all.
    pub open spec fn is_empty_spec(&self) -> bool {
        &&& self.plain_contains@.len() == 0
        &&& self.plain_not_contains@.len() == 0
        &&& self.mask_contains@.len() == 0
        &&& self.mask_not_contains@.len() == 0
        &&& self.layout_contains@.len() == 0
        &&& self.layout_not_contains@.len() == 0
        &&& self.ui_signature_key is None
        &&& self.ui_signature_contains@.len() == 0
        &&& self.ui_signature_not_contains@.len() == 0
    }

    /// Whether the assertion defines no check.
    pub fn is_empty(&self) -> (r: bool)
        ensures
            r == self.is_empty_spec(),
    {
        self.plain_contains.len() == 0 && self.plain_not_contains.len() == 0
            && self.mask_contains.len() == 0 && self.mask_not_contains.len() == 0
            && self.layout_contains.len() == 0 && self.layout_not_contains.len() == 0
            && self.ui_signature_key.is_none() && self.ui_signature_contains.len() == 0
            && self.ui_signature_not_contains.len() == 0
    }
}

impl Default for FlowAssertion {
    fn default() -> (r: Self)
        ensures
            r.is_empty_spec(),
    {
        FlowAssertion {
            plain_contains: Vec::new(),
            plain_not_contains: Vec::new(),
            mask_contains: Vec::new(),
            mask_not_contains: Vec::new(),
            layout_contains: Vec::new(),
            layout_not_contains: Vec::new(),
            ui_signature_key: None,
            ui_signature_contains: Vec::new(),
            ui_signature_not_contains: Vec::new(),
        }
    }
}

impl Default for FlowEnv {
    fn default() -> (r: Self)
        ensures
            r.casparian_home is None && r.database is None && r.terminal is None && r.seed is None
                && r.fixture is None,
    {
        FlowEnv { casparian_home: None, database: None, terminal: None, seed: None, fixture: None }
    }
}

/// Why a step is invalid.
#[derive(Debug, Clone, Copy, PartialEq, Eq, Structural)]
pub enum StepError {
    /// A wait with no ticks, no milliseconds and no assertion to wait for
    WaitWithoutCondition,
    /// A wait whose assertion checks nothing
    EmptyUntil,
    /// An assert step that checks nothing
    EmptyAssert,
}

/// Why a flow is invalid.
#[derive(Debug, Clone, Copy, PartialEq, Eq, Structural)]
pub enum FlowError {
    UnsupportedVersion(u32),
    NoSteps,
    InvalidStep(usize, StepError),
    BadTerminalSize(u16, u16),
}

impl StepError {
    pub open spec fn text(self) -> Seq<char> {
        match self {
            StepError::WaitWithoutCondition => "wait step must set ticks/ms or an until assertion"@,
            StepError::EmptyUntil => "wait step until assertion cannot be empty"@,
            StepError::EmptyAssert => "assert step must define at least one check"@,
        }
    }

    pub fn message(&self) -> (r: String)
        ensures
            r@ == self.text(),
    {
        match self {
            StepError::WaitWithoutCondition => owned("wait step must set ticks/ms or an until assertion"),
            StepError::EmptyUntil => owned("wait step until assertion cannot be empty"),
            StepError::EmptyAssert => owned("assert step must define at least one check"),
        }
    }
}

impl FlowError {
    pub open spec fn text(self) -> Seq<char> {
        match self {
            FlowError::UnsupportedVersion(v) => "Unsupported TUI flow version "@ + decimal(v as nat),
            FlowError::NoSteps => "TUI flow must include at least one step"@,
            FlowError::InvalidStep(i, e) => "invalid step "@ + decimal(i as nat) + ": "@ + e.text(),
            FlowError::BadTerminalSize(w, h) => "terminal size must be > 0 (got "@ + decimal(w as nat)
                + "x"@ + decimal(h as nat) + ")"@,
        }
    }

    /// The error text, with the step's own error after the step number.
    pub fn message(&self) -> (r: String)
        ensures
            r@ == self.text(),
    {
        match self {
            FlowError::UnsupportedVersion(v) => {
                let mut s = owned("Unsupported TUI flow version ");
                let d = u64_to_decimal(*v as u64);
                push_str(&mut s, d.as_str());
                s
            },
            FlowError::NoSteps => owned("TUI flow must include at least one step"),
            FlowError::InvalidStep(i, e) => {
                let mut s = owned("invalid step ");
                let d = u64_to_decimal(*i as u64);
                push_str(&mut s, d.as_str());
                push_str(&mut s, ": ");
                let m = e.message();
                push_str(&mut s, m.as_str());
                s
            },
            FlowError::BadTerminalSize(w, h) => {
                let mut s = owned("terminal size must be > 0 (got ");
                let dw = u64_to_decimal(*w as u64);
                push_str(&mut s, dw.as_str());
                push_str(&mut s, "x");
                let dh = u64_to_decimal(*h as u64);
                push_str(&mut s, dh.as_str());
                push_str(&mut s, ")");
                s
            },
        }
    }
}

impl FlowStep {
    /// What is wrong with a step, if anything.
    pub open spec fn step_problem(&self) -> Option<StepError> {
        match self {
            FlowStep::Wait { ticks, ms, until, .. } => {
                let has_wait = (match ticks {
                    Some(t) => *t > 0,
                    None => false,
                }) || (match ms {
                    Some(m) => *m > 0,
                    None => false,
                });
                let until_empty = match until {
                    Some(a) => a.is_empty_spec(),
                    None => true,
                };
                if !has_wait && until_empty {
                    Some(StepError::WaitWithoutCondition)
                } else if until matches Some(a) && a.is_empty_spec() {
                    Some(StepError::EmptyUntil)
                } else {
                    None
                }
            },
            FlowStep::Assert { assert, .. } => if assert.is_empty_spec() {
                Some(StepError::EmptyAssert)
            } else {
                None
            },
            _ => None,
        }
    }

    pub fn validate(&self) -> (r: Result<(), StepError>)
        ensures
            match r {
                Ok(()) => self.step_problem() is None,
                Err(e) => self.step_problem() == Some(e),
            },
    {
        match self {
            FlowStep::Key { .. } => Ok(()),
            FlowStep::Text { .. } => Ok(()),
            FlowStep::Wait { ticks, ms, until, .. } => {
                let t = match ticks {
                    Some(t) => *t,
                    None => 0,
                };
                let m = match ms {
                    Some(m) => *m,
                    None => 0,
                };
                let has_wait = t > 0 || m > 0;
                let until_empty = match until {
                    Some(a) => a.is_empty(),
                    None => true,
                };
                if !has_wait && until_empty {
                    return Err(StepError::WaitWithoutCondition);
                }
                if let Some(a) = until {
                    if a.is_empty() {
                        return Err(StepError::EmptyUntil);
                    }
                }
                Ok(())
            },
            FlowStep::Assert { assert, .. } => {
                if assert.is_empty() {
                    return Err(StepError::EmptyAssert);
                }
                Ok(())
            },
        }
    }

    /// The step's label, if any.
    pub fn label(&self) -> (r: Option<&str>)
        ensures
            match self {
                FlowStep::Key { label, .. } | FlowStep::Text { label, .. } | FlowStep::Wait {
                    label,
                    ..
                } | FlowStep::Assert { label, .. } => match label {
                    Some(l) => r matches Some(s) && s@ == l@,
                    None => r is None,
                },
            },
    {
        match self {
            FlowStep::Key { label, .. } | FlowStep::Text { label, .. } | FlowStep::Wait {
                label,
                ..
            } | FlowStep::Assert { label, .. } => match label {
                Some(l) => Some(l.as_str()),
                None => None,
            },
        }
    }

    pub open spec fn kind_spec(&self) -> Seq<char> {
        match self {
            FlowStep::Key { .. } => "key"@,
            FlowStep::Text { .. } => "text"@,
            FlowStep::Wait { .. } => "wait"@,
            FlowStep::Assert { .. } => "assert"@,
        }
    }

    /// The step's kind: "key", "text", "wait" or "assert".
    pub fn kind(&self) -> (r: &'static str)
        ensures
            r@ == self.kind_spec(),
    {
        match self {
            FlowStep::Key { .. } => "key",
            FlowStep::Text { .. } => "text",
            FlowStep::Wait { .. } => "wait",
            FlowStep::Assert { .. } => "assert",
        }
    }
}

/// The first invalid step from row `i` on, with its error.
pub open spec fn first_step_problem(steps: Seq<FlowStep>, i: int) -> Option<(int, StepError)>
    decreases steps.len() - i,
{
    if i < 0 || i >= steps.len() {
        None
    } else {
        match steps[i].step_problem() {
            Some(e) => Some((i, e)),
            None => first_step_problem(steps, i + 1),
        }
    }
}

impl TuiFlow {
    /// What is wrong with a flow, checked in order: the version, the steps,
    /// each step, the terminal size.
    pub open spec fn flow_problem(&self) -> Option<FlowError> {
        if self.version != 1 {
            Some(FlowError::UnsupportedVersion(self.version))
        } else if self.steps@.len() == 0 {
            Some(FlowError::NoSteps)
        } else {
            match first_step_problem(self.steps@, 0) {
                Some((i, e)) => Some(FlowError::InvalidStep(i as usize, e)),
                None => match self.env.terminal {
                    Some(t) => if t.width == 0 || t.height == 0 {
                        Some(FlowError::BadTerminalSize(t.width, t.height))
                    } else {
                        None
                    },
                    None => None,
                },
            }
        }
    }

    /// Checks the flow: version 1, at least one step, every step valid, and a
    /// terminal size (when given) with no zero side.
    pub fn validate(&self) -> (r: Result<(), FlowError>)
        ensures
            match r {
                Ok(()) => self.flow_problem() is None,
                Err(e) => self.flow_problem() == Some(e),
            },
    {
        if self.version != 1 {
            return Err(FlowError::UnsupportedVersion(self.version));
        }
        if self.steps.len() == 0 {
            return Err(FlowError::NoSteps);
        }
        let mut idx: usize = 0;
        while idx < self.steps.len()
            invariant
                idx <= self.steps@.len(),
                self.version == 1,
                self.steps@.len() > 0,
                first_step_problem(self.steps@, 0) == first_step_problem(self.steps@, idx as int),
            decreases self.steps@.len() - idx,
        {
            match self.steps[idx].validate() {
                Err(e) => {
                    proof {
                        assert(first_step_problem(self.steps@, idx as int) == Some((idx as int, e)));
                    }
                    return Err(FlowError::InvalidStep(idx, e));
                },
                Ok(()) => {},
            }
            idx += 1;
        }
        if let Some(t) = self.env.terminal {
            if t.width == 0 || t.height == 0 {
                return Err(FlowError::BadTerminalSize(t.width, t.height));
            }
        }
        Ok(())
    }
}

// ---------------------------------------------------------------------------
// Keys
// ---------------------------------------------------------------------------

/// Modifier keys held with a key.
#[derive(Debug, Clone, Copy, PartialEq, Eq, Structural)]
pub struct FlowModifiers {
    pub ctrl: bool,
    pub alt: bool,
    pub shift: bool,
}

impl Default for FlowModifiers {
    fn default() -> (r: Self)
        ensures
            !r.ctrl && !r.alt && !r.shift,
    {
        FlowModifiers { ctrl: false, alt: false, shift: false }
    }
}

/// A key of the flow notation.
#[derive(Debug, Clone, Copy, PartialEq, Eq, Structural)]
pub enum FlowKeyCode {
    Char(char),
    Enter,
    Esc,
    Tab,
    BackTab,
    Up,
    Down,
    Left,
    Right,
    Home,
    End,
    PageUp,
    PageDown,
    Backspace,
    Delete,
    Insert,
    F(u8),
}

/// A key with its modifiers.
#[derive(Debug, Clone, Copy, PartialEq, Eq, Structural)]
pub struct FlowKey {
    pub code: FlowKeyCode,
    pub modifiers: FlowModifiers,
}

/// Why a key does not parse.
#[derive(Debug, Clone, PartialEq, Eq)]
pub enum KeyParseError {
    /// Nothing but whitespace
    EmptyKey,
    /// A modifier other than c/ctrl/control, a/alt, s/shift
    UnknownModifier(String),
    /// The key after the modifiers is blank
    EmptyToken,
    /// A key name that is not known
    UnknownToken(String),
}

pub enum KeyParseErrorView {
    EmptyKey,
    UnknownModifier(Seq<char>),
    EmptyToken,
    UnknownToken(Seq<char>),
}

impl KeyParseError {
    pub open spec fn view(&self) -> KeyParseErrorView {
        match self {
            KeyParseError::EmptyKey => KeyParseErrorView::EmptyKey,
            KeyParseError::UnknownModifier(s) => KeyParseErrorView::UnknownModifier(s@),
            KeyParseError::EmptyToken => KeyParseErrorView::EmptyToken,
            KeyParseError::UnknownToken(s) => KeyParseErrorView::UnknownToken(s@),
        }
    }

    pub open spec fn text(&self) -> Seq<char> {
        match self {
            KeyParseError::EmptyKey => "key cannot be empty"@,
            KeyParseError::UnknownModifier(s) => "unknown key modifier '"@ + s@ + "'"@,
            KeyParseError::EmptyToken => "key token cannot be empty"@,
            KeyParseError::UnknownToken(s) => "unknown key token '"@ + s@ + "'"@,
        }
    }

    pub fn message(&self) -> (r: String)
        ensures
            r@ == self.text(),
    {
        match self {
            KeyParseError::EmptyKey => owned("key cannot be empty"),
            KeyParseError::UnknownModifier(s) => crate::text::concat3(
                "unknown key modifier '",
                s.as_str(),
                "'",
            ),
            KeyParseError::EmptyToken => owned("key token cannot be empty"),
            KeyParseError::UnknownToken(s) => crate::text::concat3(
                "unknown key token '",
                s.as_str(),
                "'",
            ),
        }
    }
}

/// Separators between modifiers and the key.
pub open spec fn is_key_sep(c: char) -> bool {
    c == '+' || c == '-'
}

/// `t` split at every separator (as `str::split` does: n separators give
/// n + 1 parts, empty ones included).
pub open spec fn split_parts(t: Seq<char>) -> Seq<Seq<char>>
    decreases t.len(),
{
    if t.len() == 0 {
        seq![Seq::<char>::empty()]
    } else {
        let rest = split_parts(t.drop_last());
        if is_key_sep(t.last()) {
            rest.push(Seq::<char>::empty())
        } else {
            rest.update(rest.len() - 1, rest.last().push(t.last()))
        }
    }
}

/// Applies the modifier parts in order; the first unknown one is the error.
pub open spec fn apply_modifiers(parts: Seq<Seq<char>>, m: FlowModifiers) -> Result<
    FlowModifiers,
    Seq<char>,
>
    decreases parts.len(),
{
    if parts.len() == 0 {
        Ok(m)
    } else {
        let tok = lower_seq(trim_seq(parts[0]));
        let rest = parts.drop_first();
        if tok == "c"@ || tok == "ctrl"@ || tok == "control"@ {
            apply_modifiers(rest, FlowModifiers { ctrl: true, alt: m.alt, shift: m.shift })
        } else if tok == "a"@ || tok == "alt"@ {
            apply_modifiers(rest, FlowModifiers { ctrl: m.ctrl, alt: true, shift: m.shift })
        } else if tok == "s"@ || tok == "shift"@ {
            apply_modifiers(rest, FlowModifiers { ctrl: m.ctrl, alt: m.alt, shift: true })
        } else if tok.len() == 0 {
            apply_modifiers(rest, m)
        } else {
            Err(parts[0])
        }
    }
}

/// Characters a key name keeps: no whitespace, `-` or `_`.
pub open spec fn kept_in_name(c: char) -> bool {
    !is_unicode_whitespace(c) && c != '-' && c != '_'
}

pub open spec fn name_chars(t: Seq<char>) -> Seq<char>
    decreases t.len(),
{
    if t.len() == 0 {
        t
    } else if kept_in_name(t.last()) {
        name_chars(t.drop_last()).push(t.last())
    } else {
        name_chars(t.drop_last())
    }
}

/// A key name as compared: kept characters, ASCII-lowercased.
pub open spec fn normalized_name(t: Seq<char>) -> Seq<char> {
    lower_seq(name_chars(t))
}

/// The named keys.
pub open spec fn named_code(n: Seq<char>) -> Option<FlowKeyCode> {
    if n == "enter"@ || n == "return"@ {
        Some(FlowKeyCode::Enter)
    } else if n == "esc"@ || n == "escape"@ {
        Some(FlowKeyCode::Esc)
    } else if n == "tab"@ {
        Some(FlowKeyCode::Tab)
    } else if n == "backtab"@ {
        Some(FlowKeyCode::BackTab)
    } else if n == "up"@ {
        Some(FlowKeyCode::Up)
    } else if n == "down"@ {
        Some(FlowKeyCode::Down)
    } else if n == "left"@ {
        Some(FlowKeyCode::Left)
    } else if n == "right"@ {
        Some(FlowKeyCode::Right)
    } else if n == "home"@ {
        Some(FlowKeyCode::Home)
    } else if n == "end"@ {
        Some(FlowKeyCode::End)
    } else if n == "pageup"@ || n == "pgup"@ {
        Some(FlowKeyCode::PageUp)
    } else if n == "pagedown"@ || n == "pgdn"@ {
        Some(FlowKeyCode::PageDown)
    } else if n == "backspace"@ || n == "bspace"@ {
        Some(FlowKeyCode::Backspace)
    } else if n == "delete"@ || n == "del"@ {
        Some(FlowKeyCode::Delete)
    } else if n == "insert"@ || n == "ins"@ {
        Some(FlowKeyCode::Insert)
    } else if n == "space"@ {
        Some(FlowKeyCode::Char(' '))
    } else {
        None
    }
}

/// `n` without its leading `f`s.
pub open spec fn drop_leading_f(n: Seq<char>) -> Seq<char>
    decreases n.len(),
{
    if n.len() > 0 && n[0] == 'f' {
        drop_leading_f(n.drop_first())
    } else {
        n
    }
}

/// Function keys: `f` followed by a number from 1 to 24.
pub open spec fn function_code(n: Seq<char>) -> Option<FlowKeyCode> {
    if n.len() > 0 && n[0] == 'f' {
        match unsigned_literal(drop_leading_f(n)) {
            Some(v) => if 1 <= v <= 24 {
                Some(FlowKeyCode::F(v as u8))
            } else {
                None
            },
            None => None,
        }
    } else {
        None
    }
}

/// What a key token reads as: a single ASCII character stands for itself;
/// otherwise a key name, then a function key.
pub open spec fn code_spec(raw: Seq<char>) -> Result<FlowKeyCode, KeyParseErrorView> {
    let t = trim_seq(raw);
    if t.len() == 0 {
        Err(KeyParseErrorView::EmptyToken)
    } else if t.len() == 1 && (t[0] as u32) < 128 {
        Ok(FlowKeyCode::Char(t[0]))
    } else {
        let n = normalized_name(t);
        match named_code(n) {
            Some(c) => Ok(c),
            None => match function_code(n) {
                Some(c) => Ok(c),
                None => Err(KeyParseErrorView::UnknownToken(raw)),
            },
        }
    }
}

/// Shift turns Tab into BackTab and a lowercase ASCII letter into its
/// uppercase.
pub open spec fn shifted(c: FlowKeyCode, m: FlowModifiers) -> FlowKeyCode {
    if c == FlowKeyCode::Tab && m.shift {
        FlowKeyCode::BackTab
    } else if m.shift && c is Char && is_ascii_lower(c->Char_0) {
        FlowKeyCode::Char(upper_char(c->Char_0))
    } else {
        c
    }
}

pub open spec fn no_modifiers() -> FlowModifiers {
    FlowModifiers { ctrl: false, alt: false, shift: false }
}

/// What a key text reads as: trimmed, split into modifier parts and the key
/// token, modifiers applied, the token read, and shift applied to it.
pub open spec fn key_spec(raw: Seq<char>) -> Result<FlowKey, KeyParseErrorView> {
    let t = trim_seq(raw);
    if t.len() == 0 {
        Err(KeyParseErrorView::EmptyKey)
    } else {
        let parts = split_parts(t);
        match apply_modifiers(parts.drop_last(), no_modifiers()) {
            Err(p) => Err(KeyParseErrorView::UnknownModifier(p)),
            Ok(m) => match code_spec(parts.last()) {
                Err(e) => Err(e),
                Ok(c) => Ok(FlowKey { code: shifted(c, m), modifiers: m }),
            },
        }
    }
}

/// Printed form of a key code.
pub open spec fn code_text(c: FlowKeyCode) -> Seq<char> {
    match c {
        FlowKeyCode::Char(ch) => if ch == ' ' {
            "Space"@
        } else {
            seq![ch]
        },
        FlowKeyCode::Enter => "Enter"@,
        FlowKeyCode::Esc => "Esc"@,
        FlowKeyCode::Tab => "Tab"@,
        FlowKeyCode::BackTab => "BackTab"@,
        FlowKeyCode::Up => "Up"@,
        FlowKeyCode::Down => "Down"@,
        FlowKeyCode::Left => "Left"@,
        FlowKeyCode::Right => "Right"@,
        FlowKeyCode::Home => "Home"@,
        FlowKeyCode::End => "End"@,
        FlowKeyCode::PageUp => "PageUp"@,
        FlowKeyCode::PageDown => "PageDown"@,
        FlowKeyCode::Backspace => "Backspace"@,
        FlowKeyCode::Delete => "Delete"@,
        FlowKeyCode::Insert => "Insert"@,
        FlowKeyCode::F(n) => "F"@ + decimal(n as nat),
    }
}

/// Printed form of a key: Ctrl, Alt, Shift and the key, joined by `+`.
pub open spec fn key_text(k: FlowKey) -> Seq<char> {
    (if k.modifiers.ctrl {
        "Ctrl+"@
    } else {
        Seq::<char>::empty()
    }) + (if k.modifiers.alt {
        "Alt+"@
    } else {
        Seq::<char>::empty()
    }) + (if k.modifiers.shift {
        "Shift+"@
    } else {
        Seq::<char>::empty()
    }) + code_text(k.code)
}

fn chars_are(v: &[char], s: &str) -> (r: bool)
    ensures
        r == (v@ == s@),
{
    let w = str_chars(s);
    chars_eq(v, w.as_slice())
}

impl FlowKeyCode {
    /// The printed form: "Space", the character, the key name, or "F" and
    /// the number.
    pub fn to_display_string(&self) -> (r: String)
        ensures
            r@ == code_text(*self),
    {
        match self {
            FlowKeyCode::Char(ch) => {
                if *ch == ' ' {
                    owned("Space")
                } else {
                    let mut s = String::new();
                    push_char(&mut s, *ch);
                    proof {
                        assert(s@ =~= seq![*ch]);
                    }
                    s
                }
            },
            FlowKeyCode::Enter => owned("Enter"),
            FlowKeyCode::Esc => owned("Esc"),
            FlowKeyCode::Tab => owned("Tab"),
            FlowKeyCode::BackTab => owned("BackTab"),
            FlowKeyCode::Up => owned("Up"),
            FlowKeyCode::Down => owned("Down"),
            FlowKeyCode::Left => owned("Left"),
            FlowKeyCode::Right => owned("Right"),
            FlowKeyCode::Home => owned("Home"),
            FlowKeyCode::End => owned("End"),
            FlowKeyCode::PageUp => owned("PageUp"),
            FlowKeyCode::PageDown => owned("PageDown"),
            FlowKeyCode::Backspace => owned("Backspace"),
            FlowKeyCode::Delete => owned("Delete"),
            FlowKeyCode::Insert => owned("Insert"),
            FlowKeyCode::F(n) => {
                let mut s = owned("F");
                let d = u64_to_decimal(*n as u64);
                push_str(&mut s, d.as_str());
                s
            },
        }
    }

    /// Reads a key token: a single ASCII character stands for itself;
    /// otherwise the name is compared without whitespace, `-` and `_`, in
    /// any case: enter/return, esc/escape, tab, backtab, the arrows, home,
    /// end, pageup/pgup, pagedown/pgdn, backspace/bspace, delete/del,
    /// insert/ins, space, and f1 to f24.
    pub fn parse(raw: &str) -> (r: Result<FlowKeyCode, KeyParseError>)
        ensures
            match r {
                Ok(c) => code_spec(raw@) == Ok::<FlowKeyCode, KeyParseErrorView>(c),
                Err(e) => code_spec(raw@) == Err::<FlowKeyCode, KeyParseErrorView>(e.view()),
            },
    {
        let chars = str_chars(raw);
        let t = trim_chars(chars.as_slice());
        if t.len() == 0 {
            return Err(KeyParseError::EmptyToken);
        }
        if t.len() == 1 && (t[0] as u32) < 128 {
            return Ok(FlowKeyCode::Char(t[0]));
        }
        let n = normalize_key_token(t.as_slice());
        let ns = n.as_slice();
        let code = if chars_are(ns, "enter") || chars_are(ns, "return") {
            FlowKeyCode::Enter
        } else if chars_are(ns, "esc") || chars_are(ns, "escape") {
            FlowKeyCode::Esc
        } else if chars_are(ns, "tab") {
            FlowKeyCode::Tab
        } else if chars_are(ns, "backtab") {
            FlowKeyCode::BackTab
        } else if chars_are(ns, "up") {
            FlowKeyCode::Up
        } else if chars_are(ns, "down") {
            FlowKeyCode::Down
        } else if chars_are(ns, "left") {
            FlowKeyCode::Left
        } else if chars_are(ns, "right") {
            FlowKeyCode::Right
        } else if chars_are(ns, "home") {
            FlowKeyCode::Home
        } else if chars_are(ns, "end") {
            FlowKeyCode::End
        } else if chars_are(ns, "pageup") || chars_are(ns, "pgup") {
            FlowKeyCode::PageUp
        } else if chars_are(ns, "pagedown") || chars_are(ns, "pgdn") {
            FlowKeyCode::PageDown
        } else if chars_are(ns, "backspace") || chars_are(ns, "bspace") {
            FlowKeyCode::Backspace
        } else if chars_are(ns, "delete") || chars_are(ns, "del") {
            FlowKeyCode::Delete
        } else if chars_are(ns, "insert") || chars_are(ns, "ins") {
            FlowKeyCode::Insert
        } else if chars_are(ns, "space") {
            FlowKeyCode::Char(' ')
        } else {
            if ns.len() > 0 && ns[0] == 'f' {
                let mut k: usize = 0;
                proof {
                    assert(ns@.subrange(0, ns@.len() as int) =~= ns@);
                }
                while k < ns.len() && ns[k] == 'f'
                    invariant
                        k <= ns@.len(),
                        ns@.len() > 0 && ns@[0] == 'f',
                        drop_leading_f(ns@) == drop_leading_f(ns@.subrange(k as int, ns@.len() as int)),
                    decreases ns@.len() - k,
                {
                    proof {
                        let rest = ns@.subrange(k as int, ns@.len() as int);
                        assert(rest.drop_first() =~= ns@.subrange(k + 1, ns@.len() as int));
                    }
                    k += 1;
                }
                proof {
                    let rest = ns@.subrange(k as int, ns@.len() as int);
                    assert(!(rest.len() > 0 && rest[0] == 'f'));
                }
                let digits = crate::text::slice_chars(ns, k, ns.len());
                match parse_u8(digits.as_slice()) {
                    Some(value) => {
                        if value >= 1 && value <= 24 {
                            return Ok(FlowKeyCode::F(value));
                        }
                    },
                    None => {},
                }
            }
            return Err(KeyParseError::UnknownToken(owned(raw)));
        };
        Ok(code)
    }
}

/// Drops whitespace, `-` and `_` and lowercases ASCII letters.
fn normalize_key_token(t: &[char]) -> (r: Vec<char>)
    ensures
        r@ == normalized_name(t@),
{
    let mut kept: Vec<char> = Vec::new();
    let mut i: usize = 0;
    while i < t.len()
        invariant
            i <= t@.len(),
            kept@ == name_chars(t@.subrange(0, i as int)),
        decreases t@.len() - i,
    {
        proof {
            assert(t@.subrange(0, i + 1).drop_last() =~= t@.subrange(0, i as int));
        }
        let c = t[i];
        if !char_is_whitespace(c) && c != '-' && c != '_' {
            kept.push(c);
        }
        i += 1;
    }
    proof {
        assert(t@.subrange(0, t@.len() as int) =~= t@);
    }
    let mut r: Vec<char> = Vec::new();
    let mut j: usize = 0;
    while j < kept.len()
        invariant
            j <= kept@.len(),
            r@ == lower_seq(kept@.subrange(0, j as int)),
        decreases kept@.len() - j,
    {
        r.push(char_to_ascii_lower(kept[j]));
        j += 1;
        proof {
            assert(r@ =~= lower_seq(kept@.subrange(0, j as int)));
        }
    }
    proof {
        assert(kept@.subrange(0, kept@.len() as int) =~= kept@);
    }
    r
}

pub open spec fn parts_view(v: Seq<Vec<char>>) -> Seq<Seq<char>> {
    v.map_values(|p: Vec<char>| p@)
}

proof fn lemma_split_parts_nonempty(t: Seq<char>)
    ensures
        split_parts(t).len() >= 1,
    decreases t.len(),
{
    if t.len() > 0 {
        lemma_split_parts_nonempty(t.drop_last());
    }
}

/// Splits at every `+` and `-`.
fn split_key_parts(t: &[char]) -> (r: Vec<Vec<char>>)
    ensures
        parts_view(r@) == split_parts(t@),
        r@.len() >= 1,
{
    let mut parts: Vec<Vec<char>> = Vec::new();
    let mut cur: Vec<char> = Vec::new();
    let mut i: usize = 0;
    proof {
        assert(parts_view(parts@).push(cur@) =~= split_parts(t@.subrange(0, 0)));
    }
    while i < t.len()
        invariant
            i <= t@.len(),
            parts_view(parts@).push(cur@) == split_parts(t@.subrange(0, i as int)),
        decreases t@.len() - i,
    {
        let ghost pre = t@.subrange(0, i + 1);
        proof {
            assert(pre.drop_last() =~= t@.subrange(0, i as int));
            lemma_split_parts_nonempty(pre.drop_last());
        }
        let c = t[i];
        if c == '+' || c == '-' {
            let done = cur;
            let ghost before = parts_view(parts@);
            parts.push(done);
            cur = Vec::new();
            proof {
                assert(parts_view(parts@) =~= before.push(done@));
                assert(parts_view(parts@).push(cur@) =~= split_parts(pre));
            }
        } else {
            let ghost before = cur@;
            cur.push(c);
            proof {
                assert(parts_view(parts@).push(cur@) =~= split_parts(pre));
            }
        }
        i += 1;
    }
    let ghost before = parts_view(parts@);
    parts.push(cur);
    proof {
        assert(t@.subrange(0, t@.len() as int) =~= t@);
        assert(parts_view(parts@) =~= before.push(cur@));
    }
    parts
}

impl FlowKey {
    /// Reads a key: whitespace around it is ignored; parts before the last
    /// `+` or `-` are modifiers (c/ctrl/control, a/alt, s/shift, in any case;
    /// blank parts are skipped); the last part is the key token. Shift turns
    /// Tab into BackTab and a lowercase letter into its uppercase.
    pub fn parse(raw: &str) -> (r: Result<FlowKey, KeyParseError>)
        ensures
            match r {
                Ok(k) => key_spec(raw@) == Ok::<FlowKey, KeyParseErrorView>(k),
                Err(e) => key_spec(raw@) == Err::<FlowKey, KeyParseErrorView>(e.view()),
            },
    {
        let chars = str_chars(raw);
        let t = trim_chars(chars.as_slice());
        if t.len() == 0 {
            return Err(KeyParseError::EmptyKey);
        }
        let parts = split_key_parts(t.as_slice());
        let last = parts.len() - 1;
        let ghost pv = parts_view(parts@);
        let ghost prefix = pv.drop_last();
        let mut modifiers = FlowModifiers { ctrl: false, alt: false, shift: false };
        let mut i: usize = 0;
        proof {
            assert(prefix.subrange(0, prefix.len() as int) =~= prefix);
        }
        while i < last
            invariant
                i <= last,
                last == parts@.len() - 1,
                t@ == trim_seq(raw@),
                t@.len() > 0,
                pv == split_parts(t@),
                pv == parts_view(parts@),
                prefix == pv.drop_last(),
                apply_modifiers(prefix, no_modifiers()) == apply_modifiers(
                    prefix.subrange(i as int, prefix.len() as int),
                    modifiers,
                ),
            decreases last - i,
        {
            let ghost rest = prefix.subrange(i as int, prefix.len() as int);
            proof {
                assert(rest[0] == parts@[i as int]@);
                assert(rest.drop_first() =~= prefix.subrange(i + 1, prefix.len() as int));
            }
            let trimmed = trim_chars(parts[i].as_slice());
            let mut tok: Vec<char> = Vec::new();
            let mut j: usize = 0;
            while j < trimmed.len()
                invariant
                    j <= trimmed@.len(),
                    tok@ == lower_seq(trimmed@.subrange(0, j as int)),
                decreases trimmed@.len() - j,
            {
                tok.push(char_to_ascii_lower(trimmed[j]));
                j += 1;
                proof {
                    assert(tok@ =~= lower_seq(trimmed@.subrange(0, j as int)));
                }
            }
            proof {
                assert(trimmed@.subrange(0, trimmed@.len() as int) =~= trimmed@);
            }
            let ts = tok.as_slice();
            if chars_are(ts, "c") || chars_are(ts, "ctrl") || chars_are(ts, "control") {
                modifiers.ctrl = true;
            } else if chars_are(ts, "a") || chars_are(ts, "alt") {
                modifiers.alt = true;
            } else if chars_are(ts, "s") || chars_are(ts, "shift") {
                modifiers.shift = true;
            } else if ts.len() == 0 {
            } else {
                proof {
                    assert(tok@ == lower_seq(trim_seq(rest[0])));
                    assert(apply_modifiers(rest, modifiers) == Err::<FlowModifiers, Seq<char>>(
                        parts@[i as int]@,
                    ));
                }
                return Err(KeyParseError::UnknownModifier(string_from_chars(parts[i].as_slice())));
            }
            i += 1;
        }
        proof {
            assert(prefix.subrange(last as int, prefix.len() as int) =~= Seq::<Seq<char>>::empty());
        }
        let token = string_from_chars(parts[last].as_slice());
        let mut code = match FlowKeyCode::parse(token.as_str()) {
            Ok(c) => c,
            Err(e) => {
                return Err(e);
            },
        };
        if code == FlowKeyCode::Tab && modifiers.shift {
            code = FlowKeyCode::BackTab;
        } else if let FlowKeyCode::Char(ch) = code {
            if modifiers.shift && 'a' <= ch && ch <= 'z' {
                code = FlowKeyCode::Char(char_to_ascii_upper(ch));
            }
        }
        Ok(FlowKey { code, modifiers })
    }

    /// The printed form: "Ctrl+", "Alt+", "Shift+" as held, then the key.
    pub fn to_display_string(&self) -> (r: String)
        ensures
            r@ == key_text(*self),
    {
        let mut s = String::new();
        if self.modifiers.ctrl {
            push_str(&mut s, "Ctrl+");
        }
        if self.modifiers.alt {
            push_str(&mut s, "Alt+");
        }
        if self.modifiers.shift {
            push_str(&mut s, "Shift+");
        }
        let c = self.code.to_display_string();
        push_str(&mut s, c.as_str());
        proof {
            assert(s@ =~= key_text(*self));
        }
        s
    }
}

// ---------------------------------------------------------------------------
// Recording and running flows
// ---------------------------------------------------------------------------

/// How typed text is kept when a session is recorded.
#[derive(Debug, Clone, Copy, PartialEq, Eq, Structural)]
pub enum RecordRedaction {
    /// As typed
    Plaintext,
    /// As `*`s, with a hash of the text in the label
    Hash,
    /// Left out, with only its length in the label
    Omit,
}

/// Arguments of running a flow: the flow file, the output directory, and
/// whether to run without a terminal.
#[derive(Debug, Clone)]
pub struct TuiFlowRunArgs {
    pub flow: String,
    pub out: String,
    pub headless: bool,
}

/// Flow commands.
#[derive(Debug, Clone)]
pub enum TuiFlowCommand {
    Run(TuiFlowRunArgs),
}

impl FlowKey {
    /// The flow key for a terminal key's code and modifiers: Tab with Shift
    /// is BackTab without Shift; other keys are as they come.
    pub fn from_parts(code: FlowKeyCode, modifiers: FlowModifiers) -> (r: FlowKey)
        ensures
            code == FlowKeyCode::Tab && modifiers.shift ==> r == (FlowKey {
                code: FlowKeyCode::BackTab,
                modifiers: FlowModifiers { shift: false, ..modifiers },
            }),
            !(code == FlowKeyCode::Tab && modifiers.shift) ==> r == (FlowKey { code, modifiers }),
    {
        if code == FlowKeyCode::Tab && modifiers.shift {
            FlowKey {
                code: FlowKeyCode::BackTab,
                modifiers: FlowModifiers { ctrl: modifiers.ctrl, alt: modifiers.alt, shift: false },
            }
        } else {
            FlowKey { code, modifiers }
        }
    }

    /// The character a recorded key types: a character without Ctrl or Alt.
    pub fn text_char(&self) -> (r: Option<char>)
        ensures
            r == (match self.code {
                FlowKeyCode::Char(c) => if !self.modifiers.ctrl && !self.modifiers.alt {
                    Some(c)
                } else {
                    None
                },
                _ => None,
            }),
    {
        match self.code {
            FlowKeyCode::Char(c) => {
                if !self.modifiers.ctrl && !self.modifiers.alt {
                    Some(c)
                } else {
                    None
                }
            },
            _ => None,
        }
    }
}


/// A step is valid: an assertion step checks something; a wait step waits
/// until a non-empty assertion holds, or, with no assertion, for some ticks
/// or milliseconds; key and text steps always are.
pub open spec fn step_valid(s: FlowStep) -> bool {
    match s {
        FlowStep::Assert { assert, .. } => !assert.is_empty_spec(),
        FlowStep::Wait { ticks, ms, until, .. } => match until {
            Some(a) => !a.is_empty_spec(),
            None => (match ticks {
                Some(t) => t > 0,
                None => false,
            }) || (match ms {
                Some(m) => m > 0,
                None => false,
            }),
        },
        _ => true,
    }
}

/// Law: a step has no problem exactly when it is valid (see `step_valid`).
pub proof fn law_step_valid_iff(s: FlowStep)
    ensures
        s.step_problem() is None <==> step_valid(s),
{
}

proof fn lemma_no_step_problem(steps: Seq<FlowStep>, i: int)
    requires
        0 <= i <= steps.len(),
    ensures
        first_step_problem(steps, i) is None <==> forall|k: int|
            i <= k < steps.len() ==> (#[trigger] steps[k]).step_problem() is None,
    decreases steps.len() - i,
{
    if i < steps.len() {
        lemma_no_step_problem(steps, i + 1);
    }
}

/// Law: a flow is valid exactly when its version is 1, it has steps, every
/// step is valid (see `step_valid`), and a terminal size, when given, has
/// no zero side.
pub proof fn law_flow_valid_iff(f: TuiFlow)
    ensures
        f.flow_problem() is None <==> {
            &&& f.version == 1
            &&& f.steps@.len() > 0
            &&& forall|k: int| 0 <= k < f.steps@.len() ==> step_valid(#[trigger] f.steps@[k])
            &&& match f.env.terminal {
                Some(t) => t.width > 0 && t.height > 0,
                None => true,
            }
        },
{
    lemma_no_step_problem(f.steps@, 0);
    assert forall|k: int| 0 <= k < f.steps@.len() implies (f.steps@[k].step_problem() is None
        <==> step_valid(#[trigger] f.steps@[k])) by {
        law_step_valid_iff(f.steps@[k]);
    }
}

/// Law: an assertion without UI signature checks is empty exactly when its
/// six pattern lists are.
pub proof fn law_assertion_empty_iff(a: FlowAssertion)
    requires
        a.ui_signature_key is None,
        a.ui_signature_contains@.len() == 0,
        a.ui_signature_not_contains@.len() == 0,
    ensures
        a.is_empty_spec() <==> (a.plain_contains@.len() == 0 && a.plain_not_contains@.len() == 0
            && a.mask_contains@.len() == 0 && a.mask_not_contains@.len() == 0
            && a.layout_contains@.len() == 0 && a.layout_not_contains@.len() == 0),
{
}

} // verus!

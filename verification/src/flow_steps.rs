//! Running flow steps: what each step sends to the application, how long a
//! wait lasts, placeholders in typed text, and the decisions after each
//! check of a waited-for or asserted screen.
use vstd::prelude::*;
use crate::flow::{FlowFixture, FlowKey, FlowKeyCode, FlowModifiers, FlowStep, TerminalSize};
use crate::flow_assert::FlowAssertError;
use crate::text::{chars_occur_at, occurs_at, owned, push_char, push_str, str_chars, string_from_chars, strings_view};

verus! {

/// Milliseconds per tick of the application.
pub const WAIT_TICK_MS: u64 = 50;

pub open spec fn wait_ticks_spec(ticks: Option<u32>, ms: Option<u64>) -> u32 {
    match ticks {
        Some(t) => if t >= 1 {
            t
        } else {
            1
        },
        None => match ms {
            Some(m) => {
                let count = (m + WAIT_TICK_MS - 1) / (WAIT_TICK_MS as int);
                if count >= 1 {
                    count as u32
                } else {
                    1
                }
            },
            None => 1,
        },
    }
}

/// Ticks a wait lasts: the ticks given (at least one), else the
/// milliseconds rounded up to whole ticks (at least one), else one.
pub fn compute_wait_ticks(ticks: Option<u32>, ms: Option<u64>) -> (r: u32)
    requires
        ms matches Some(m) ==> m + WAIT_TICK_MS <= u64::MAX,
    ensures
        r == wait_ticks_spec(ticks, ms),
{
    if let Some(t) = ticks {
        return if t >= 1 {
            t
        } else {
            1
        };
    }
    if let Some(m) = ms {
        let count = (m + WAIT_TICK_MS - 1) / WAIT_TICK_MS;
        return if count >= 1 {
            count as u32
        } else {
            1
        };
    }
    1
}

/// The key a typed character becomes: newline is Enter, tab is Tab.
pub open spec fn char_key(c: char) -> FlowKey {
    FlowKey {
        code: if c == '\n' {
            FlowKeyCode::Enter
        } else if c == '\t' {
            FlowKeyCode::Tab
        } else {
            FlowKeyCode::Char(c)
        },
        modifiers: FlowModifiers { ctrl: false, alt: false, shift: false },
    }
}

/// The keys that type a text, one per character.
pub fn text_keys(text: &str) -> (r: Vec<FlowKey>)
    ensures
        r@.len() == text@.len(),
        forall|i: int| 0 <= i < text@.len() ==> #[trigger] r@[i] == char_key(text@[i]),
{
    let chars = str_chars(text);
    let mut keys: Vec<FlowKey> = Vec::new();
    let mut i: usize = 0;
    while i < chars.len()
        invariant
            i <= chars@.len(),
            chars@ == text@,
            keys@.len() == i,
            forall|k: int| 0 <= k < i ==> #[trigger] keys@[k] == char_key(chars@[k]),
        decreases chars@.len() - i,
    {
        let c = chars[i];
        let code = if c == '\n' {
            FlowKeyCode::Enter
        } else if c == '\t' {
            FlowKeyCode::Tab
        } else {
            FlowKeyCode::Char(c)
        };
        let ghost before = keys@;
        keys.push(FlowKey { code, modifiers: FlowModifiers { ctrl: false, alt: false, shift: false } });
        proof {
            assert(keys@ == before.push(char_key(c)));
        }
        i += 1;
    }
    keys
}

/// `s` with every occurrence of a non-empty `pat`, scanned left to right,
/// replaced by `rep`.
pub open spec fn replace_all(s: Seq<char>, pat: Seq<char>, rep: Seq<char>) -> Seq<char>
    decreases s.len(),
{
    if pat.len() == 0 || s.len() == 0 {
        s
    } else if occurs_at(s, pat, 0) {
        rep + replace_all(s.subrange(pat.len() as int, s.len() as int), pat, rep)
    } else {
        seq![s[0]] + replace_all(s.drop_first(), pat, rep)
    }
}

/// `rep` before each character of `s` and once more at the end: what
/// `str::replace` does with an empty pattern, which occurs at every
/// character boundary.
pub open spec fn around_each(s: Seq<char>, rep: Seq<char>) -> Seq<char>
    decreases s.len(),
{
    if s.len() == 0 {
        rep
    } else {
        rep + seq![s[0]] + around_each(s.drop_first(), rep)
    }
}

/// `str::replace`: every occurrence of `pat`, scanned left to right,
/// replaced by `rep`; an empty pattern occurs at every character boundary.
pub open spec fn str_replaced(s: Seq<char>, pat: Seq<char>, rep: Seq<char>) -> Seq<char> {
    if pat.len() == 0 {
        around_each(s, rep)
    } else {
        replace_all(s, pat, rep)
    }
}

/// See `str_replaced`.
pub fn replace_str(s: &str, pat: &str, rep: &str) -> (r: String)
    ensures
        r@ == str_replaced(s@, pat@, rep@),
{
    if pat.is_empty() {
        replace_empty(s, rep)
    } else {
        replace_nonempty(s, pat, rep)
    }
}

fn replace_empty(s: &str, rep: &str) -> (r: String)
    ensures
        r@ == around_each(s@, rep@),
{
    let c = str_chars(s);
    let mut out = String::new();
    let mut i: usize = 0;
    proof {
        assert(c@.subrange(0, c@.len() as int) =~= c@);
    }
    while i < c.len()
        invariant
            i <= c@.len(),
            c@ == s@,
            out@ + around_each(c@.subrange(i as int, c@.len() as int), rep@) == around_each(c@, rep@),
        decreases c@.len() - i,
    {
        let ghost rest = c@.subrange(i as int, c@.len() as int);
        let ghost before = out@;
        push_str(&mut out, rep);
        push_char(&mut out, c[i]);
        proof {
            assert(rest.drop_first() =~= c@.subrange(i + 1, c@.len() as int));
            assert(rest[0] == c@[i as int]);
            assert(before + (rep@ + seq![c@[i as int]] + around_each(rest.drop_first(), rep@))
                =~= out@ + around_each(rest.drop_first(), rep@));
        }
        i += 1;
    }
    push_str(&mut out, rep);
    proof {
        assert(c@.subrange(i as int, c@.len() as int) =~= Seq::<char>::empty());
    }
    out
}

fn replace_nonempty(s: &str, pat: &str, rep: &str) -> (r: String)
    requires
        pat@.len() > 0,
    ensures
        r@ == replace_all(s@, pat@, rep@),
{
    let c = str_chars(s);
    let p = str_chars(pat);
    let q = str_chars(rep);
    let mut out: Vec<char> = Vec::new();
    let mut i: usize = 0;
    proof {
        assert(c@.subrange(0, c@.len() as int) =~= c@);
        assert(Seq::<char>::empty() + replace_all(c@, p@, q@) =~= replace_all(c@, p@, q@));
    }
    while i < c.len()
        invariant
            i <= c@.len(),
            c@ == s@,
            p@ == pat@,
            q@ == rep@,
            p@.len() > 0,
            out@ + replace_all(c@.subrange(i as int, c@.len() as int), p@, q@) == replace_all(
                c@,
                p@,
                q@,
            ),
        decreases c@.len() - i,
    {
        let ghost rest = c@.subrange(i as int, c@.len() as int);
        let ghost before = out@;
        let found = p.len() <= c.len() - i && chars_occur_at(c.as_slice(), p.as_slice(), i);
        proof {
            if found {
                assert(rest.subrange(0, p@.len() as int) =~= c@.subrange(i as int, i + p@.len()));
                assert(occurs_at(rest, p@, 0));
            } else {
                if occurs_at(rest, p@, 0) {
                    assert(c@.subrange(i as int, i + p@.len()) =~= rest.subrange(
                        0,
                        p@.len() as int,
                    ));
                    assert(occurs_at(c@, p@, i as int));
                }
            }
        }
        if found {
            let mut k: usize = 0;
            while k < q.len()
                invariant
                    k <= q@.len(),
                    out@ == before + q@.subrange(0, k as int),
                decreases q@.len() - k,
            {
                out.push(q[k]);
                k += 1;
                proof {
                    assert(out@ =~= before + q@.subrange(0, k as int));
                }
            }
            proof {
                assert(q@.subrange(0, q@.len() as int) =~= q@);
                assert(rest.subrange(p@.len() as int, rest.len() as int) =~= c@.subrange(
                    i + p@.len(),
                    c@.len() as int,
                ));
                assert(before + (q@ + replace_all(
                    c@.subrange(i + p@.len(), c@.len() as int),
                    p@,
                    q@,
                )) =~= out@ + replace_all(c@.subrange(i + p@.len(), c@.len() as int), p@, q@));
            }
            i = i + p.len();
        } else {
            out.push(c[i]);
            proof {
                assert(rest.drop_first() =~= c@.subrange(i + 1, c@.len() as int));
                assert(rest[0] == c@[i as int]);
                assert(before + (seq![c@[i as int]] + replace_all(
                    c@.subrange(i + 1, c@.len() as int),
                    p@,
                    q@,
                )) =~= out@ + replace_all(c@.subrange(i + 1, c@.len() as int), p@, q@));
            }
            i = i + 1;
        }
    }
    proof {
        assert(c@.subrange(i as int, c@.len() as int) =~= Seq::<char>::empty());
        assert(out@ + Seq::<char>::empty() =~= out@);
    }
    string_from_chars(out.as_slice())
}

/// Typed text with the placeholders of the flow environment filled in:
/// the home directory and flow directory, then the fixture's path and name.
pub open spec fn resolved_text(
    input: Seq<char>,
    home: Seq<char>,
    flow_dir: Seq<char>,
    fixture: Option<(Seq<char>, Seq<char>)>,
) -> Seq<char> {
    let a = replace_all(input, "{{CASPARIAN_HOME}}"@, home);
    let b = replace_all(a, "${CASPARIAN_HOME}"@, home);
    let c = replace_all(b, "{{FLOW_DIR}}"@, flow_dir);
    match fixture {
        Some((path, name)) => {
            let d = replace_all(c, "{{FIXTURE_PATH}}"@, path);
            let e = replace_all(d, "${FIXTURE_PATH}"@, path);
            let f = replace_all(e, "{{FIXTURE_NAME}}"@, name);
            replace_all(f, "${FIXTURE_NAME}"@, name)
        },
        None => c,
    }
}

proof fn lemma_placeholders_nonempty()
    ensures
        "{{CASPARIAN_HOME}}"@.len() > 0,
        "${CASPARIAN_HOME}"@.len() > 0,
        "{{FLOW_DIR}}"@.len() > 0,
        "{{FIXTURE_PATH}}"@.len() > 0,
        "${FIXTURE_PATH}"@.len() > 0,
        "{{FIXTURE_NAME}}"@.len() > 0,
        "${FIXTURE_NAME}"@.len() > 0,
{
    reveal_strlit("{{CASPARIAN_HOME}}");
    reveal_strlit("${CASPARIAN_HOME}");
    reveal_strlit("{{FLOW_DIR}}");
    reveal_strlit("{{FIXTURE_PATH}}");
    reveal_strlit("${FIXTURE_PATH}");
    reveal_strlit("{{FIXTURE_NAME}}");
    reveal_strlit("${FIXTURE_NAME}");
}

/// Fills in the placeholders of typed text: `{{CASPARIAN_HOME}}` and
/// `${CASPARIAN_HOME}`, `{{FLOW_DIR}}`, and with a fixture
/// `{{FIXTURE_PATH}}`, `${FIXTURE_PATH}`, `{{FIXTURE_NAME}}`,
/// `${FIXTURE_NAME}`.
pub fn resolve_text(input: &str, home: &str, flow_dir: &str, fixture: &Option<FlowFixture>) -> (r:
    String)
    ensures
        r@ == resolved_text(
            input@,
            home@,
            flow_dir@,
            match fixture {
                Some(f) => Some((f.path@, f.name@)),
                None => None,
            },
        ),
{
    proof {
        lemma_placeholders_nonempty();
    }
    let a = replace_str(input, "{{CASPARIAN_HOME}}", home);
    let b = replace_str(a.as_str(), "${CASPARIAN_HOME}", home);
    let c = replace_str(b.as_str(), "{{FLOW_DIR}}", flow_dir);
    match fixture {
        Some(f) => {
            let d = replace_str(c.as_str(), "{{FIXTURE_PATH}}", f.path.as_str());
            let e = replace_str(d.as_str(), "${FIXTURE_PATH}", f.path.as_str());
            let g = replace_str(e.as_str(), "{{FIXTURE_NAME}}", f.name.as_str());
            replace_str(g.as_str(), "${FIXTURE_NAME}", f.name.as_str())
        },
        None => c,
    }
}

/// A failed step: where, what kind, its label, a summary and the failures.
#[derive(Debug, Clone)]
pub struct FlowFailure {
    pub step_index: usize,
    pub step_kind: String,
    pub label: Option<String>,
    pub error: String,
    pub failures: Vec<String>,
}

/// The failure record of a step.
pub fn build_failure(index: usize, step: &FlowStep, err: &FlowAssertError, summary: &str) -> (r:
    FlowFailure)
    ensures
        r.step_index == index,
        r.step_kind@ == step.kind_spec(),
        r.error@ == summary@,
        strings_view(r.failures@) == strings_view(err.failures@),
        match step {
            FlowStep::Key { label, .. } | FlowStep::Text { label, .. } | FlowStep::Wait {
                label,
                ..
            } | FlowStep::Assert { label, .. } => match label {
                Some(l) => r.label matches Some(s) && s@ == l@,
                None => r.label is None,
            },
        },
{
    let mut failures: Vec<String> = Vec::new();
    let mut i: usize = 0;
    while i < err.failures.len()
        invariant
            i <= err.failures@.len(),
            strings_view(failures@) == strings_view(err.failures@).subrange(0, i as int),
        decreases err.failures@.len() - i,
    {
        let ghost before = strings_view(failures@);
        let copy = owned(err.failures[i].as_str());
        failures.push(copy);
        proof {
            assert(strings_view(failures@) =~= before.push(err.failures@[i as int]@));
        }
        i += 1;
        proof {
            assert(strings_view(failures@) =~= strings_view(err.failures@).subrange(0, i as int));
        }
    }
    proof {
        assert(strings_view(err.failures@).subrange(0, err.failures@.len() as int) =~= strings_view(
            err.failures@,
        ));
    }
    FlowFailure {
        step_index: index,
        step_kind: owned(step.kind()),
        label: match step.label() {
            Some(l) => Some(owned(l)),
            None => None,
        },
        error: owned(summary),
        failures,
    }
}

/// What to do after checking the screen while waiting for an assertion.
#[derive(Debug, Clone)]
pub enum WaitDecision {
    /// The assertion holds: the step passed
    Passed,
    /// Tick once more and check again
    TickAndCheck,
    /// Out of ticks: the step failed
    Failed(FlowFailure),
}

/// After a check of a wait step's assertion with `ticks_left` ticks still
/// allowed: pass when it holds; otherwise tick again while ticks remain
/// (with one fewer left); otherwise fail with "wait condition not met" and
/// the last check's failures.
pub fn after_wait_check(
    index: usize,
    step: &FlowStep,
    ticks_left: u32,
    outcome: &Result<(), FlowAssertError>,
) -> (r: (WaitDecision, u32))
    ensures
        outcome is Ok ==> r.0 is Passed && r.1 == ticks_left,
        outcome is Err && ticks_left > 0 ==> r.0 is TickAndCheck && r.1 == ticks_left - 1,
        outcome is Err && ticks_left == 0 ==> r.1 == 0 && (r.0 matches WaitDecision::Failed(f)
            && f.step_index == index && f.error@ == "wait condition not met"@ && f.step_kind@
            == step.kind_spec() && strings_view(f.failures@) == strings_view(
            outcome->Err_0.failures@,
        )),
{
    match outcome {
        Ok(()) => (WaitDecision::Passed, ticks_left),
        Err(e) => {
            if ticks_left > 0 {
                (WaitDecision::TickAndCheck, ticks_left - 1)
            } else {
                (WaitDecision::Failed(build_failure(index, step, e, "wait condition not met")), 0)
            }
        },
    }
}

/// The failure of an assert step, if its check failed ("assertion failed").
pub fn after_assert_check(index: usize, step: &FlowStep, outcome: &Result<(), FlowAssertError>) -> (r:
    Option<FlowFailure>)
    ensures
        outcome is Ok ==> r is None,
        outcome is Err ==> (r matches Some(f) && f.step_index == index && f.error@
            == "assertion failed"@ && f.step_kind@ == step.kind_spec() && strings_view(f.failures@)
            == strings_view(outcome->Err_0.failures@)),
{
    match outcome {
        Ok(()) => None,
        Err(e) => Some(build_failure(index, step, e, "assertion failed")),
    }
}

/// Terminal size a flow runs at when its environment names none.
pub open spec fn default_terminal() -> TerminalSize {
    TerminalSize { width: 120, height: 40 }
}

/// The terminal size of a flow: its own, else 120 by 40.
pub fn flow_terminal(terminal: Option<TerminalSize>) -> (r: TerminalSize)
    ensures
        r == (match terminal {
            Some(t) => t,
            None => default_terminal(),
        }),
{
    match terminal {
        Some(t) => t,
        None => TerminalSize { width: 120, height: 40 },
    }
}

/// A node of the rendered layout, by its displayed parts.
#[derive(Debug, Clone)]
pub struct LayoutEntry {
    pub id: String,
    pub title: String,
    pub kind: String,
    pub focused: bool,
}

/// The signature line of a layout node: "id|title|kind|focused" (or
/// "unfocused").
pub open spec fn layout_line(e: LayoutEntry) -> Seq<char> {
    e.id@ + "|"@ + e.title@ + "|"@ + e.kind@ + "|"@ + if e.focused {
        "focused"@
    } else {
        "unfocused"@
    }
}

/// The signature of a layout: its nodes' lines joined by newlines.
pub open spec fn layout_signature_of(nodes: Seq<LayoutEntry>) -> Seq<char>
    decreases nodes.len(),
{
    if nodes.len() == 0 {
        Seq::empty()
    } else if nodes.len() == 1 {
        layout_line(nodes[0])
    } else {
        layout_signature_of(nodes.drop_last()) + "\n"@ + layout_line(nodes.last())
    }
}

/// The signature the layout assertions are checked against (see
/// `layout_signature_of`).
pub fn layout_signature(nodes: &Vec<LayoutEntry>) -> (r: String)
    ensures
        r@ == layout_signature_of(nodes@),
{
    let mut out = String::new();
    let mut i: usize = 0;
    while i < nodes.len()
        invariant
            i <= nodes@.len(),
            out@ == layout_signature_of(nodes@.subrange(0, i as int)),
        decreases nodes@.len() - i,
    {
        let ghost before = out@;
        if i > 0 {
            crate::text::push_str(&mut out, "\n");
        }
        let n = &nodes[i];
        crate::text::push_str(&mut out, n.id.as_str());
        crate::text::push_str(&mut out, "|");
        crate::text::push_str(&mut out, n.title.as_str());
        crate::text::push_str(&mut out, "|");
        crate::text::push_str(&mut out, n.kind.as_str());
        crate::text::push_str(&mut out, "|");
        if n.focused {
            crate::text::push_str(&mut out, "focused");
        } else {
            crate::text::push_str(&mut out, "unfocused");
        }
        proof {
            let sub = nodes@.subrange(0, i + 1);
            assert(sub.drop_last() =~= nodes@.subrange(0, i as int));
            assert(sub.last() == nodes@[i as int]);
            if i == 0 {
                assert(before =~= Seq::<char>::empty());
                assert(out@ =~= layout_line(nodes@[0]));
            } else {
                assert(out@ =~= before + "\n"@ + layout_line(nodes@[i as int]));
            }
        }
        i += 1;
    }
    proof {
        assert(nodes@.subrange(0, nodes@.len() as int) =~= nodes@);
    }
    out
}

} // verus!

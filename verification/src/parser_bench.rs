//! Keys of the parser bench: moving through the parsers that the filter
//! shows, editing the filter, and the actions on the selected parser.
//!
//! Which parsers the filter shows is decided by the caller, who hands the
//! shown indices in; after the filter text changes the caller recomputes
//! them and settles the selection on them.
use vstd::prelude::*;
use crate::discover::{handle_text_input, text_input_spec, TextInputResult};
use crate::flow::{FlowKey, FlowKeyCode};
use crate::shell::ParserBenchState;

verus! {

/// What a bench key asks of the rest of the shell.
#[derive(Debug, Clone, PartialEq, Eq)]
pub enum BenchEffect {
    /// Nothing beyond the bench's own state
    Nothing,
    /// Leave the bench for the Home screen
    GoHome,
    /// Remove the broken link at this path; the list is to be reloaded
    RemoveBrokenLink(String),
}

/// Position of the first occurrence of `x` in `s`; 0 when it does not occur.
pub open spec fn first_position(s: Seq<usize>, x: usize) -> int {
    if exists|i: int| 0 <= i < s.len() && s[i] == x {
        choose|i: int| 0 <= i < s.len() && s[i] == x && forall|k: int| 0 <= k < i ==> s[k] != x
    } else {
        0
    }
}

/// The selection kept when the shown parsers are `shown`: the first shown
/// one when the selection is not shown, else unchanged.
pub open spec fn kept_selection(shown: Seq<usize>, selected: usize) -> usize {
    if shown.len() > 0 && !shown.contains(selected) {
        shown[0]
    } else {
        selected
    }
}

/// The selection after the filter changed: as `kept_selection`, and 0 when
/// nothing is shown.
pub open spec fn settled_selection(shown: Seq<usize>, selected: usize) -> usize {
    if shown.len() == 0 {
        0
    } else {
        kept_selection(shown, selected)
    }
}

/// The selection after a navigation key, from the kept selection `sel`:
/// Down and Up move to the next and previous shown parser, wrapping around.
pub open spec fn moved_selection(code: FlowKeyCode, shown: Seq<usize>, sel: usize) -> usize {
    let n = shown.len() as int;
    let p = first_position(shown, sel);
    match code {
        FlowKeyCode::Down => if n > 0 {
            shown[(p + 1) % n]
        } else {
            sel
        },
        FlowKeyCode::Up => if n > 0 {
            shown[if p == 0 {
                n - 1
            } else {
                p - 1
            }]
        } else {
            sel
        },
        _ => sel,
    }
}

/// The key removes the selected parser's broken link.
pub open spec fn removes_link(bench: ParserBenchState, code: FlowKeyCode, sel: usize) -> bool {
    &&& code == FlowKeyCode::Char('d')
    &&& bench.parsers@.len() > 0
    &&& bench.parsers@[sel as int].symlink_broken
}

/// Everything but the selection, the load flag, the filter and the test
/// result is the same.
pub open spec fn same_bench_but_keys(a: ParserBenchState, b: ParserBenchState) -> bool {
    &&& a.view == b.view
    &&& a.focus_mode == b.focus_mode
    &&& a.parsers == b.parsers
    &&& a.quick_test_path == b.quick_test_path
    &&& a.bound_files == b.bound_files
    &&& a.selected_file == b.selected_file
    &&& a.test_running == b.test_running
    &&& a.last_test_file == b.last_test_file
}

/// First position of `x` in `v`, if any.
fn position_of(v: &Vec<usize>, x: usize) -> (r: Option<usize>)
    ensures
        match r {
            Some(i) => i < v.len() && v@[i as int] == x && forall|k: int| 0 <= k < i ==> v@[k] != x,
            None => !v@.contains(x),
        },
{
    let mut i: usize = 0;
    while i < v.len()
        invariant
            i <= v.len(),
            forall|k: int| 0 <= k < i ==> v@[k] != x,
        decreases v.len() - i,
    {
        if v[i] == x {
            return Some(i);
        }
        i += 1;
    }
    None
}

proof fn lemma_first_position(s: Seq<usize>, x: usize, i: int)
    requires
        0 <= i < s.len(),
        s[i] == x,
        forall|k: int| 0 <= k < i ==> s[k] != x,
    ensures
        first_position(s, x) == i,
{
    let c = choose|c: int| 0 <= c < s.len() && s[c] == x && forall|k: int| 0 <= k < c ==> s[k] != x;
    assert(0 <= c < s.len() && s[c] == x && forall|k: int| 0 <= k < c ==> s[k] != x);
    if c < i {
        assert(s[c] != x);
    }
    if c > i {
        assert(s[i] != x);
    }
}

/// Law: among shown parsers listed once each, Up undoes Down (and Down
/// undoes Up) for a shown selection.
pub proof fn law_up_undoes_down(shown: Seq<usize>, sel: usize)
    requires
        shown.no_duplicates(),
        shown.contains(sel),
    ensures
        moved_selection(FlowKeyCode::Up, shown, moved_selection(FlowKeyCode::Down, shown, sel)) == sel,
        moved_selection(FlowKeyCode::Down, shown, moved_selection(FlowKeyCode::Up, shown, sel)) == sel,
{
    let n = shown.len() as int;
    let p = choose|i: int| 0 <= i < shown.len() && shown[i] == sel;
    assert forall|i: int| 0 <= i < n implies first_position(shown, #[trigger] shown[i]) == i by {
        lemma_first_position(shown, shown[i], i);
    }
    assert(first_position(shown, sel) == p) by {
        assert(first_position(shown, shown[p]) == p);
    }
    if p + 1 < n {
        vstd::arithmetic::div_mod::lemma_small_mod((p + 1) as nat, n as nat);
    } else {
        assert(n % n == 0) by (nonlinear_arith)
            requires
                n > 0,
        ;
    }
    if p > 0 {
        vstd::arithmetic::div_mod::lemma_small_mod(p as nat, n as nat);
    }
    let down = shown[(p + 1) % n];
    assert(first_position(shown, down) == (p + 1) % n);
    let up = shown[if p == 0 { n - 1 } else { p - 1 }];
    assert(first_position(shown, up) == if p == 0 { n - 1 } else { p - 1 });
}

impl ParserBenchState {
    /// A key while the filter is being typed: the filter takes it as a
    /// text input; Enter ends the typing, Esc ends it and clears the filter.
    pub fn filter_key(&mut self, key: &FlowKey)
        requires
            old(self).is_filtering,
        ensures
            ({
                let (res, text) = text_input_spec(*key, old(self).filter@);
                &&& final(self).filter@ == (if res == TextInputResult::Cancelled {
                    Seq::<char>::empty()
                } else {
                    text
                })
                &&& final(self).is_filtering == !(res == TextInputResult::Committed || res
                    == TextInputResult::Cancelled)
            }),
            same_bench_but_keys(*final(self), *old(self)),
            final(self).selected_parser == old(self).selected_parser,
            final(self).parsers_loaded == old(self).parsers_loaded,
            final(self).test_result == old(self).test_result,
    {
        let res = handle_text_input(key, &mut self.filter);
        match res {
            TextInputResult::Committed => {
                self.is_filtering = false;
            },
            TextInputResult::Cancelled => {
                self.is_filtering = false;
                self.filter = String::new();
            },
            _ => {},
        }
    }

    /// Settles the selection on the parsers shown after the filter changed
    /// (see `settled_selection`).
    pub fn settle_selection(&mut self, shown: &Vec<usize>)
        ensures
            final(self).selected_parser == settled_selection(shown@, old(self).selected_parser),
            same_bench_but_keys(*final(self), *old(self)),
            final(self).parsers_loaded == old(self).parsers_loaded,
            final(self).filter == old(self).filter,
            final(self).is_filtering == old(self).is_filtering,
            final(self).test_result == old(self).test_result,
    {
        if shown.len() == 0 {
            self.selected_parser = 0;
        } else if position_of(shown, self.selected_parser).is_none() {
            self.selected_parser = shown[0];
        }
    }

    /// A key on the bench while the filter is not being typed, with
    /// `shown` the parsers the filter shows. The selection is first kept
    /// among the shown parsers; then Down/Up move through them, `r` asks
    /// for a reload, `/` starts typing the filter, Esc clears the filter,
    /// else drops the test result, else leaves for Home, and `d` removes
    /// the selected parser's link when it is broken. Other keys change
    /// nothing.
    pub fn handle_key(&mut self, key: &FlowKey, shown: &Vec<usize>) -> (r: BenchEffect)
        requires
            !old(self).is_filtering,
            key.code == FlowKeyCode::Char('d') && old(self).parsers@.len() > 0 ==> kept_selection(
                shown@,
                old(self).selected_parser,
            ) < old(self).parsers@.len(),
        ensures
            ({
                let sel = kept_selection(shown@, old(self).selected_parser);
                let esc = key.code == FlowKeyCode::Esc;
                let clears = esc && old(self).filter@.len() > 0;
                let drops = esc && !clears && old(self).test_result is Some;
                let home = esc && !clears && !drops;
                let removes = removes_link(*old(self), key.code, sel);
                &&& final(self).selected_parser == moved_selection(key.code, shown@, sel)
                &&& final(self).parsers_loaded == (if key.code == FlowKeyCode::Char('r') || removes {
                    false
                } else {
                    old(self).parsers_loaded
                })
                &&& final(self).is_filtering == (key.code == FlowKeyCode::Char('/'))
                &&& final(self).filter@ == (if clears {
                    Seq::<char>::empty()
                } else {
                    old(self).filter@
                })
                &&& final(self).test_result == (if drops {
                    None
                } else {
                    old(self).test_result
                })
                &&& r == (if home {
                    BenchEffect::GoHome
                } else if removes {
                    BenchEffect::RemoveBrokenLink(old(self).parsers@[sel as int].path)
                } else {
                    BenchEffect::Nothing
                })
            }),
            same_bench_but_keys(*final(self), *old(self)),
    {
        if shown.len() > 0 && position_of(shown, self.selected_parser).is_none() {
            self.selected_parser = shown[0];
        }
        let ghost sel = self.selected_parser;
        proof {
            if shown@.len() > 0 {
                assert(shown@.contains(shown@[0]));
                assert(shown@.contains(sel));
            }
        }
        match key.code {
            FlowKeyCode::Down => {
                if shown.len() > 0 {
                    let pos = match position_of(shown, self.selected_parser) {
                        Some(p) => p,
                        None => {
                            assert(false);
                            0
                        },
                    };
                    proof {
                        lemma_first_position(shown@, sel, pos as int);
                    }
                    let next = (pos + 1) % shown.len();
                    self.selected_parser = shown[next];
                }
                BenchEffect::Nothing
            },
            FlowKeyCode::Up => {
                if shown.len() > 0 {
                    let pos = match position_of(shown, self.selected_parser) {
                        Some(p) => p,
                        None => {
                            assert(false);
                            0
                        },
                    };
                    proof {
                        lemma_first_position(shown@, sel, pos as int);
                    }
                    let prev = if pos == 0 {
                        shown.len() - 1
                    } else {
                        pos - 1
                    };
                    self.selected_parser = shown[prev];
                }
                BenchEffect::Nothing
            },
            FlowKeyCode::Char('r') => {
                self.parsers_loaded = false;
                BenchEffect::Nothing
            },
            FlowKeyCode::Char('/') => {
                self.is_filtering = true;
                BenchEffect::Nothing
            },
            FlowKeyCode::Esc => {
                if !self.filter.as_str().is_empty() {
                    self.filter = String::new();
                    BenchEffect::Nothing
                } else if self.test_result.is_some() {
                    self.test_result = None;
                    BenchEffect::Nothing
                } else {
                    BenchEffect::GoHome
                }
            },
            FlowKeyCode::Char('d') => {
                if self.parsers.len() > 0 {
                    let i = self.selected_parser;
                    if self.parsers[i].symlink_broken {
                        self.parsers_loaded = false;
                        return BenchEffect::RemoveBrokenLink(self.parsers[i].path.clone());
                    }
                }
                BenchEffect::Nothing
            },
            _ => BenchEffect::Nothing,
        }
    }
}

} // verus!

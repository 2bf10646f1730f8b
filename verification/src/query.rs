//! The Query console: SQL input, query history with draft keeping, results.
use vstd::prelude::*;
use crate::text::{str_chars, str_eq, string_from_chars, strings_view, trim_chars, trim_seq, without};

verus! {

/// View state within the Query screen.
#[derive(Debug, Clone, Copy, PartialEq, Eq, Structural)]
pub enum QueryViewState {
    Editing,
    Executing,
    ViewingResults,
    TableBrowser,
    SavedQueries,
}

/// Rows returned by a query, as text.
#[derive(Debug, Clone)]
pub struct QueryResults {
    pub columns: Vec<String>,
    pub rows: Vec<Vec<String>>,
    /// Total row count (more than `rows` when truncated)
    pub row_count: usize,
    pub truncated: bool,
    pub selected_row: usize,
    /// Horizontal scroll offset
    pub scroll_x: usize,
}

#[derive(Debug, Clone)]
pub struct TableBrowserEntry {
    pub schema: String,
    pub name: String,
    pub insert_text: String,
}

#[derive(Debug, Clone)]
pub struct TableBrowserState {
    pub tables: Vec<TableBrowserEntry>,
    pub selected_index: usize,
    pub loaded: bool,
    pub error: Option<String>,
}

/// A saved query file: its name and path.
#[derive(Debug, Clone)]
pub struct SavedQueryEntry {
    pub name: String,
    pub path: String,
}

#[derive(Debug, Clone)]
pub struct SavedQueriesState {
    pub entries: Vec<SavedQueryEntry>,
    pub selected_index: usize,
    pub loaded: bool,
    pub error: Option<String>,
}

/// Most queries kept in the history.
pub open spec fn query_history_limit() -> nat {
    100
}

/// The history after recording a query that trims to `t` (non-empty): `t`
/// first, earlier copies gone, and the oldest entry dropped when that makes
/// the history too long.
pub open spec fn query_history_with(v: Seq<Seq<char>>, t: Seq<char>) -> Seq<Seq<char>> {
    let all = seq![t] + without(v, t);
    if all.len() > query_history_limit() {
        all.drop_last()
    } else {
        all
    }
}

/// Byte length of the UTF-8 encoding of a text (where a cursor set to the
/// end of the input stands).
pub open spec fn byte_len(s: Seq<char>) -> nat {
    vstd::utf8::encode_utf8(s).len()
}

/// State of the Query screen.
#[derive(Debug, Clone)]
pub struct QueryState {
    pub view_state: QueryViewState,
    pub sql_input: String,
    /// Cursor position within the SQL input
    pub cursor_position: usize,
    /// Query history, most recent first
    pub history: Vec<String>,
    /// Position in the history while browsing it
    pub history_index: Option<usize>,
    pub results: Option<QueryResults>,
    pub error: Option<String>,
    pub status_message: Option<String>,
    pub executing: bool,
    pub execution_time_ms: Option<u64>,
    /// The input as it was before browsing the history
    pub draft_input: Option<String>,
    pub table_browser: TableBrowserState,
    pub saved_queries: SavedQueriesState,
}

impl QueryState {
    /// Records a query in the history, trimmed; blank queries are ignored.
    pub fn add_to_history(&mut self, query: &str)
        ensures
            trim_seq(query@).len() == 0 ==> *final(self) == *old(self),
            trim_seq(query@).len() > 0 ==> strings_view(final(self).history@) == query_history_with(
                strings_view(old(self).history@),
                trim_seq(query@),
            ),
            *final(self) == (QueryState { history: final(self).history, ..*old(self) }),
            final(self).sql_input == old(self).sql_input,
            final(self).cursor_position == old(self).cursor_position,
            final(self).history_index == old(self).history_index,
            final(self).draft_input == old(self).draft_input,
            final(self).view_state == old(self).view_state,
    {
        let chars = str_chars(query);
        let t = trim_chars(chars.as_slice());
        if t.len() == 0 {
            return ;
        }
        let trimmed = string_from_chars(t.as_slice());
        let ghost x = trimmed@;
        let ghost old_view = strings_view(self.history@);
        let mut kept: Vec<String> = Vec::new();
        kept.push(trimmed.clone());
        let mut i: usize = 0;
        proof {
            assert(strings_view(kept@) =~= seq![x] + without(old_view.subrange(0, 0), x));
        }
        while i < self.history.len()
            invariant
                i <= self.history@.len(),
                old_view == strings_view(self.history@),
                x == trimmed@,
                strings_view(kept@) == seq![x] + without(old_view.subrange(0, i as int), x),
            decreases self.history@.len() - i,
        {
            proof {
                assert(old_view.subrange(0, i + 1).drop_last() =~= old_view.subrange(0, i as int));
                assert(old_view.subrange(0, i + 1).last() == self.history@[i as int]@);
            }
            let ghost before = strings_view(kept@);
            if !str_eq(self.history[i].as_str(), trimmed.as_str()) {
                kept.push(self.history[i].clone());
                proof {
                    assert(strings_view(kept@) =~= before.push(self.history@[i as int]@));
                    assert(strings_view(kept@) =~= seq![x] + without(
                        old_view.subrange(0, i + 1),
                        x,
                    ));
                }
            } else {
                proof {
                    assert(strings_view(kept@) =~= seq![x] + without(
                        old_view.subrange(0, i + 1),
                        x,
                    ));
                }
            }
            i += 1;
        }
        proof {
            assert(old_view.subrange(0, old_view.len() as int) =~= old_view);
        }
        if kept.len() > 100 {
            kept.pop();
            proof {
                assert(strings_view(kept@) =~= (seq![x] + without(old_view, x)).drop_last());
            }
        }
        self.history = kept;
    }

    /// Steps back in the history: the first step keeps the current input as
    /// a draft; each step loads an older query and puts the cursor at its end.
    pub fn history_prev(&mut self)
        ensures
            old(self).history@.len() == 0 ==> *final(self) == *old(self),
            old(self).history@.len() > 0 && old(self).history_index is None ==> {
                &&& final(self).draft_input == Some(old(self).sql_input)
                &&& final(self).history_index == Some(0usize)
                &&& final(self).sql_input@ == old(self).history@[0]@
                &&& final(self).cursor_position == byte_len(final(self).sql_input@) as usize
            },
            old(self).history_index is Some && old(self).history_index->0 + 1 < old(self).history@.len() ==> {
                &&& final(self).draft_input == old(self).draft_input
                &&& final(self).history_index == Some((old(self).history_index->0 + 1) as usize)
                &&& final(self).sql_input@ == old(self).history@[old(self).history_index->0 + 1]@
                &&& final(self).cursor_position == byte_len(final(self).sql_input@) as usize
            },
            old(self).history_index is Some && old(self).history_index->0 + 1 >= old(self).history@.len()
                ==> *final(self) == *old(self),
            final(self).history == old(self).history,
    {
        if self.history.len() == 0 {
            return ;
        }
        match self.history_index {
            None => {
                self.draft_input = Some(self.sql_input.clone());
                self.history_index = Some(0);
                self.sql_input = self.history[0].clone();
                self.cursor_position = self.sql_input.as_str().len();
            },
            Some(idx) => {
                if idx < self.history.len() - 1 {
                    self.history_index = Some(idx + 1);
                    self.sql_input = self.history[idx + 1].clone();
                    self.cursor_position = self.sql_input.as_str().len();
                }
            },
        }
    }

    /// Steps forward in the history: from the newest entry back to the draft
    /// (which is consumed), otherwise to the next newer entry; the cursor
    /// goes to the end of the input.
    pub fn history_next(&mut self)
        requires
            old(self).history_index is Some && old(self).history_index->0 > 0 ==> old(self).history_index->0 - 1
                < old(self).history@.len(),
        ensures
            old(self).history_index is None ==> *final(self) == *old(self),
            old(self).history_index == Some(0usize) ==> {
                &&& final(self).history_index is None
                &&& final(self).draft_input is None
                &&& final(self).sql_input == (match old(self).draft_input {
                    Some(d) => d,
                    None => old(self).sql_input,
                })
                &&& final(self).cursor_position == byte_len(final(self).sql_input@) as usize
            },
            old(self).history_index is Some && old(self).history_index->0 > 0 ==> {
                &&& final(self).history_index == Some((old(self).history_index->0 - 1) as usize)
                &&& final(self).sql_input == old(self).history@[old(self).history_index->0 - 1]
                &&& final(self).draft_input == old(self).draft_input
                &&& final(self).cursor_position == byte_len(final(self).sql_input@) as usize
            },
            final(self).history == old(self).history,
    {
        match self.history_index {
            Some(idx) => {
                if idx == 0 {
                    self.history_index = None;
                    match self.draft_input.take() {
                        Some(draft) => {
                            self.sql_input = draft;
                        },
                        None => {},
                    }
                    self.cursor_position = self.sql_input.as_str().len();
                } else {
                    self.history_index = Some(idx - 1);
                    self.sql_input = self.history[idx - 1].clone();
                    self.cursor_position = self.sql_input.as_str().len();
                }
            },
            None => {},
        }
    }

    /// Clears the error, results and timing of the last query.
    pub fn clear_for_new_query(&mut self)
        ensures
            final(self).error is None,
            final(self).results is None,
            final(self).execution_time_ms is None,
            final(self).sql_input == old(self).sql_input,
            final(self).history == old(self).history,
            final(self).history_index == old(self).history_index,
            final(self).view_state == old(self).view_state,
            final(self).executing == old(self).executing,
    {
        self.error = None;
        self.results = None;
        self.execution_time_ms = None;
    }
}

impl Default for QueryState {
    /// An empty editor with no history and no results.
    fn default() -> (r: Self)
        ensures
            r.view_state == QueryViewState::Editing,
            r.sql_input@.len() == 0,
            r.cursor_position == 0,
            r.history@.len() == 0,
            r.history_index is None,
            r.results is None,
            r.error is None,
            r.status_message is None,
            !r.executing,
            r.execution_time_ms is None,
            r.draft_input is None,
    {
        QueryState {
            view_state: QueryViewState::Editing,
            sql_input: String::new(),
            cursor_position: 0,
            history: Vec::new(),
            history_index: None,
            results: None,
            error: None,
            status_message: None,
            executing: false,
            execution_time_ms: None,
            draft_input: None,
            table_browser: TableBrowserState {
                tables: Vec::new(),
                selected_index: 0,
                loaded: false,
                error: None,
            },
            saved_queries: SavedQueriesState {
                entries: Vec::new(),
                selected_index: 0,
                loaded: false,
                error: None,
            },
        }
    }
}

/// After a query is recorded, the history starts with it, holds it once,
/// and stays within its limit.
pub proof fn law_query_history_records_once(v: Seq<Seq<char>>, t: Seq<char>)
    requires
        v.len() <= query_history_limit(),
    ensures
        query_history_with(v, t).len() >= 1,
        query_history_with(v, t)[0] == t,
        query_history_with(v, t).len() <= query_history_limit(),
        forall|k: int| 1 <= k < query_history_with(v, t).len() ==> #[trigger] query_history_with(v, t)[k] != t,
{
    crate::text::lemma_without_excludes(v, t);
    let w = without(v, t);
    let all = seq![t] + w;
    assert(all[0] == t);
    assert forall|k: int| 1 <= k < all.len() implies #[trigger] all[k] != t by {
        assert(all[k] == w[k - 1]);
        assert(w.contains(w[k - 1]));
    }
}

} // verus!

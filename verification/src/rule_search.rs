//! Starting the rule builder's searches: the match search that groups the
//! matching files by folder, and the full schema evaluation. Each first
//! checks that it can go ahead and says why not.
use vstd::prelude::*;
use crate::extraction::{ExtractionPreviewFile, FileResultsPhase, FolderMatch};
use crate::glob_pattern::{alignment_in_range, extract_field_values, extract_spec, placeholders_view, GlobParseError, ParsedGlobPattern};
use crate::jobs::{jobs_view, JobView, SchemaEvalMode};
use crate::jobs_merge::trimmed;
use crate::jobs_state::JobsState;
use crate::job_updates::is_schema_eval_job;
use crate::rule_builder::RuleBuilderState;
use crate::discover_state::DiscoverState;
use crate::text::{concat2, owned, push_str, slice_chars, str_chars, str_eq, string_from_chars};

verus! {

// ---------------------------------------------------------------------------
// Grouping matched files by folder
// ---------------------------------------------------------------------------

/// Position of the last '/' in `p`, or -1.
pub open spec fn last_slash(p: Seq<char>) -> int
    decreases p.len(),
{
    if p.len() == 0 {
        -1
    } else if p.last() == '/' {
        p.len() - 1
    } else {
        last_slash(p.drop_last())
    }
}

/// The folder of a relative path as the list shows it: the part before the
/// last '/' followed by '/', or "./" for a path without one.
pub open spec fn shown_folder(p: Seq<char>) -> Seq<char> {
    if last_slash(p) >= 0 {
        p.subrange(0, last_slash(p)) + "/"@
    } else {
        "./"@
    }
}

/// The file name of a relative path: the part after the last '/'.
pub open spec fn file_name_part(p: Seq<char>) -> Seq<char> {
    p.subrange(last_slash(p) + 1, p.len() as int)
}

/// A folder's row: its shown path, how many files matched, and the name of
/// the first of them.
pub type GroupView = (Seq<char>, nat, Seq<char>);

/// Position of the group of this folder, or -1.
pub open spec fn group_index(gs: Seq<GroupView>, folder: Seq<char>) -> int
    decreases gs.len(),
{
    if gs.len() == 0 {
        -1
    } else if gs.last().0 == folder {
        gs.len() - 1
    } else {
        group_index(gs.drop_last(), folder)
    }
}

/// The groups of the first `n` paths, in the order their folders first
/// appear.
pub open spec fn groups_upto(paths: Seq<Seq<char>>, n: int) -> Seq<GroupView>
    decreases n,
{
    if n <= 0 {
        Seq::empty()
    } else {
        let gs = groups_upto(paths, n - 1);
        let p = paths[n - 1];
        let k = group_index(gs, shown_folder(p));
        if k >= 0 {
            gs.update(k, (gs[k].0, gs[k].1 + 1, gs[k].2))
        } else {
            gs.push((shown_folder(p), 1nat, file_name_part(p)))
        }
    }
}

/// First position in `gs` from `k` on with a count below `c`; the end when
/// there is none.
pub open spec fn first_below_from(gs: Seq<GroupView>, c: nat, k: int) -> int
    decreases gs.len() - k,
{
    if k >= gs.len() || k < 0 {
        gs.len() as int
    } else if gs[k].1 < c {
        k
    } else {
        first_below_from(gs, c, k + 1)
    }
}

/// The groups ordered by count, most first, keeping the given order among
/// equal counts.
pub open spec fn groups_by_count(gs: Seq<GroupView>) -> Seq<GroupView>
    decreases gs.len(),
{
    if gs.len() == 0 {
        Seq::empty()
    } else {
        let sorted = groups_by_count(gs.drop_last());
        sorted.insert(first_below_from(sorted, gs.last().1, 0), gs.last())
    }
}

pub open spec fn match_view(m: FolderMatch) -> GroupView {
    (m.path@, m.count as nat, m.sample_filename@)
}

pub open spec fn matches_view(ms: Seq<FolderMatch>) -> Seq<GroupView> {
    ms.map_values(|m: FolderMatch| match_view(m))
}

proof fn lemma_group_index(gs: Seq<GroupView>, folder: Seq<char>)
    ensures
        -1 <= group_index(gs, folder) < gs.len(),
        group_index(gs, folder) >= 0 ==> gs[group_index(gs, folder)].0 == folder,
        group_index(gs, folder) < 0 ==> forall|j: int| 0 <= j < gs.len() ==> gs[j].0 != folder,
    decreases gs.len(),
{
    if gs.len() > 0 {
        lemma_group_index(gs.drop_last(), folder);
        if gs.last().0 != folder {
            assert forall|j: int| 0 <= j < gs.len() && group_index(gs, folder) < 0 implies gs[j].0
                != folder by {
                if j < gs.len() - 1 {
                    assert(gs.drop_last()[j] == gs[j]);
                }
            }
            if group_index(gs, folder) >= 0 {
                assert(gs.drop_last()[group_index(gs, folder)] == gs[group_index(gs, folder)]);
            }
        }
    }
}

/// Position of the last '/' in `v`, if any.
fn last_slash_in(v: &Vec<char>) -> (r: Option<usize>)
    ensures
        match r {
            Some(k) => k < v@.len() && last_slash(v@) == k,
            None => last_slash(v@) == -1,
        },
{
    let mut i: usize = v.len();
    assert(v@.subrange(0, v@.len() as int) =~= v@);
    while i > 0
        invariant
            i <= v@.len(),
            last_slash(v@) == last_slash(v@.subrange(0, i as int)),
        decreases i,
    {
        let ghost pre = v@.subrange(0, i as int);
        proof {
            assert(pre.drop_last() =~= v@.subrange(0, i - 1));
        }
        if v[i - 1] == '/' {
            return Some(i - 1);
        }
        i -= 1;
    }
    None
}

/// The matched files grouped by folder (see `groups_upto`), ordered by
/// how many files matched, most first (see `groups_by_count`); folders with
/// equal counts come in the order they first appear.
pub fn group_by_folder(paths: &Vec<String>) -> (r: Vec<FolderMatch>)
    ensures
        matches_view(r@) == groups_by_count(
            groups_upto(paths@.map_values(|s: String| s@), paths@.len() as int),
        ),
        forall|j: int| 0 <= j < r@.len() ==> (#[trigger] r@[j]).files@.len() == 0,
{
    let ghost ps = paths@.map_values(|s: String| s@);
    let mut groups: Vec<FolderMatch> = Vec::new();
    let mut i: usize = 0;
    while i < paths.len()
        invariant
            i <= paths@.len(),
            ps == paths@.map_values(|s: String| s@),
            matches_view(groups@) == groups_upto(ps, i as int),
            forall|j: int| 0 <= j < groups@.len() ==> (#[trigger] groups@[j]).files@.len() == 0,
            forall|j: int| 0 <= j < groups@.len() ==> (#[trigger] groups@[j]).count <= i,
        decreases paths@.len() - i,
    {
        let chars = str_chars(paths[i].as_str());
        assert(chars@ == ps[i as int]);
        let (folder, name) = match last_slash_in(&chars) {
            Some(k) => {
                assert(k < chars.len());
                let mut f = string_from_chars(slice_chars(chars.as_slice(), 0, k).as_slice());
                push_str(&mut f, "/");
                (f, string_from_chars(slice_chars(chars.as_slice(), k + 1, chars.len()).as_slice()))
            },
            None => {
                assert(chars@.subrange(0, chars@.len() as int) =~= chars@);
                (owned("./"), string_from_chars(chars.as_slice()))
            },
        };
        let ghost gs = groups_upto(ps, i as int);
        proof {
            lemma_group_index(gs, folder@);
        }
        let mut k: usize = 0;
        while k < groups.len() && !str_eq(groups[k].path.as_str(), folder.as_str())
            invariant
                k <= groups@.len(),
                matches_view(groups@) == gs,
                forall|j: int| 0 <= j < k ==> gs[j].0 != folder@,
            decreases groups@.len() - k,
        {
            proof {
                assert(gs[k as int] == match_view(groups@[k as int]));
            }
            k += 1;
        }
        proof {
            assert(groups_upto(ps, i + 1) == {
                let kk = group_index(gs, shown_folder(ps[i as int]));
                if kk >= 0 {
                    gs.update(kk, (gs[kk].0, gs[kk].1 + 1, gs[kk].2))
                } else {
                    gs.push((shown_folder(ps[i as int]), 1nat, file_name_part(ps[i as int])))
                }
            });
        }
        if k < groups.len() {
            proof {
                assert(gs[k as int] == match_view(groups@[k as int]));
                lemma_groups_distinct(ps, i as int);
                let kk = group_index(gs, folder@);
                if kk < 0 {
                    assert(gs[k as int].0 != folder@);
                }
                if kk >= 0 && kk != k {
                    if kk < k {
                        assert(gs[kk].0 != gs[k as int].0);
                    } else {
                        assert(gs[k as int].0 != gs[kk].0);
                    }
                }
                assert(kk == k);
            }
            let mut g = groups.remove(k);
            g.count = g.count + 1;
            groups.insert(k, g);
            proof {
                assert(matches_view(groups@) =~= gs.update(
                    k as int,
                    (gs[k as int].0, gs[k as int].1 + 1, gs[k as int].2),
                ));
            }
        } else {
            groups.push(FolderMatch { path: folder, count: 1, sample_filename: name, files: Vec::new() });
            proof {
                assert(matches_view(groups@) =~= gs.push((folder@, 1nat, name@)));
            }
        }
        i += 1;
    }
    let ghost all = groups_upto(ps, paths@.len() as int);
    let mut out: Vec<FolderMatch> = Vec::new();
    let ghost mut taken: int = 0;
    while groups.len() > 0
        invariant
            0 <= taken <= all.len(),
            matches_view(groups@) == all.subrange(taken, all.len() as int),
            matches_view(out@) == groups_by_count(all.subrange(0, taken)),
            forall|j: int| 0 <= j < groups@.len() ==> (#[trigger] groups@[j]).files@.len() == 0,
            forall|j: int| 0 <= j < out@.len() ==> (#[trigger] out@[j]).files@.len() == 0,
        decreases groups@.len(),
    {
        let ghost before = matches_view(groups@);
        proof {
            assert(before.len() == groups@.len());
            assert(taken < all.len());
            assert(before[0] == all[taken]);
        }
        let g = groups.remove(0);
        let c = g.count;
        let ghost sorted = matches_view(out@);
        let mut p: usize = 0;
        proof {
            lemma_first_below_all(sorted, c as nat, 0);
        }
        while p < out.len() && out[p].count >= c
            invariant
                p <= out@.len(),
                sorted == matches_view(out@),
                first_below_from(sorted, c as nat, 0) == first_below_from(sorted, c as nat, p as int),
            decreases out@.len() - p,
        {
            proof {
                assert(sorted[p as int] == match_view(out@[p as int]));
            }
            p += 1;
        }
        proof {
            if p < out@.len() {
                assert(sorted[p as int] == match_view(out@[p as int]));
            }
            let next = all.subrange(0, taken + 1);
            assert(next.drop_last() =~= all.subrange(0, taken));
            assert(before[0] == all[taken]);
            assert(next.last() == all[taken]);
        }
        out.insert(p, g);
        proof {
            assert(matches_view(out@) =~= sorted.insert(p as int, match_view(g)));
            assert(matches_view(groups@) =~= before.drop_first());
            assert(before.drop_first() =~= all.subrange(taken + 1, all.len() as int));
            taken = taken + 1;
        }
    }
    proof {
        assert(all.subrange(0, taken) =~= all);
    }
    out
}

/// Folders of the groups are distinct.
proof fn lemma_groups_distinct(paths: Seq<Seq<char>>, n: int)
    requires
        0 <= n <= paths.len(),
    ensures
        forall|a: int, b: int|
            0 <= a < b < groups_upto(paths, n).len() ==> (#[trigger] groups_upto(paths, n)[a]).0
                != (#[trigger] groups_upto(paths, n)[b]).0,
    decreases n,
{
    if n > 0 {
        lemma_groups_distinct(paths, n - 1);
        let gs = groups_upto(paths, n - 1);
        lemma_group_index(gs, shown_folder(paths[n - 1]));
    }
}

/// Files counted over the groups.
pub open spec fn counted(gs: Seq<GroupView>) -> nat
    decreases gs.len(),
{
    if gs.len() == 0 {
        0
    } else {
        counted(gs.drop_last()) + gs.last().1
    }
}

proof fn lemma_counted_update(gs: Seq<GroupView>, k: int, g: GroupView)
    requires
        0 <= k < gs.len(),
    ensures
        counted(gs.update(k, g)) == counted(gs) - gs[k].1 + g.1,
    decreases gs.len(),
{
    if k < gs.len() - 1 {
        lemma_counted_update(gs.drop_last(), k, g);
        assert(gs.update(k, g).drop_last() =~= gs.drop_last().update(k, g));
    } else {
        assert(gs.update(k, g).drop_last() =~= gs.drop_last());
    }
}

proof fn lemma_counted_insert(gs: Seq<GroupView>, k: int, g: GroupView)
    requires
        0 <= k <= gs.len(),
    ensures
        counted(gs.insert(k, g)) == counted(gs) + g.1,
    decreases gs.len(),
{
    if k < gs.len() {
        lemma_counted_insert(gs.drop_last(), k, g);
        assert(gs.insert(k, g).drop_last() =~= gs.drop_last().insert(k, g));
    } else {
        assert(gs.insert(k, g).drop_last() =~= gs);
    }
}

/// Law: every matched file is counted in exactly one folder: the counts
/// add up to the number of files, before and after ordering.
pub proof fn law_groups_count_every_file(paths: Seq<Seq<char>>, n: int)
    requires
        0 <= n <= paths.len(),
    ensures
        counted(groups_upto(paths, n)) == n,
        counted(groups_by_count(groups_upto(paths, n))) == n,
    decreases n,
{
    if n > 0 {
        law_groups_count_every_file(paths, n - 1);
        let gs = groups_upto(paths, n - 1);
        let k = group_index(gs, shown_folder(paths[n - 1]));
        lemma_group_index(gs, shown_folder(paths[n - 1]));
        if k >= 0 {
            lemma_counted_update(gs, k, (gs[k].0, gs[k].1 + 1, gs[k].2));
        } else {
            assert(gs.push((shown_folder(paths[n - 1]), 1nat, file_name_part(paths[n - 1]))).drop_last() =~= gs);
        }
    }
    lemma_sorted_count(groups_upto(paths, n));
}

proof fn lemma_sorted_count(gs: Seq<GroupView>)
    ensures
        counted(groups_by_count(gs)) == counted(gs),
    decreases gs.len(),
{
    if gs.len() > 0 {
        lemma_sorted_count(gs.drop_last());
        let sorted = groups_by_count(gs.drop_last());
        lemma_first_below_all(sorted, gs.last().1, 0);
        lemma_counted_insert(sorted, first_below_from(sorted, gs.last().1, 0), gs.last());
    }
}

/// Law: the folders are listed by count, most first.
pub proof fn law_groups_descending(gs: Seq<GroupView>)
    ensures
        forall|a: int, b: int|
            0 <= a < b < groups_by_count(gs).len() ==> (#[trigger] groups_by_count(gs)[a]).1
                >= (#[trigger] groups_by_count(gs)[b]).1,
        groups_by_count(gs).len() == gs.len(),
    decreases gs.len(),
{
    if gs.len() > 0 {
        law_groups_descending(gs.drop_last());
        let order = groups_by_count(gs.drop_last());
        let g = gs.last();
        lemma_first_below_all(order, g.1, 0);
        let p = first_below_from(order, g.1, 0);
        let r = order.insert(p, g);
        assert forall|a: int, b: int| 0 <= a < b < r.len() implies (#[trigger] r[a]).1 >= (
        #[trigger] r[b]).1 by {
            if b < p {
                assert(r[a] == order[a] && r[b] == order[b]);
            } else if b == p {
                assert(r[a] == order[a]);
            } else if a == p {
                assert(r[b] == order[b - 1]);
                if p < order.len() {
                    if b - 1 > p {
                        assert(order[p].1 >= order[b - 1].1);
                    }
                }
            } else if a < p {
                assert(r[a] == order[a] && r[b] == order[b - 1]);
            } else {
                assert(r[a] == order[a - 1] && r[b] == order[b - 1]);
            }
        }
    }
}

proof fn lemma_first_below_all(gs: Seq<GroupView>, c: nat, k: int)
    requires
        0 <= k <= gs.len(),
    ensures
        k <= first_below_from(gs, c, k) <= gs.len(),
        forall|j: int| k <= j < first_below_from(gs, c, k) ==> (#[trigger] gs[j]).1 >= c,
        first_below_from(gs, c, k) < gs.len() ==> gs[first_below_from(gs, c, k)].1 < c,
    decreases gs.len() - k,
{
    if k < gs.len() && gs[k].1 >= c {
        lemma_first_below_all(gs, c, k + 1);
    }
}

// ---------------------------------------------------------------------------
// Starting the searches
// ---------------------------------------------------------------------------

/// Why the match search cannot start, in the order it is checked; `None`
/// when it can.
pub open spec fn search_refusal(
    workspace_known: bool,
    source_known: bool,
    pattern_valid: bool,
    control_connected: bool,
    has_control_addr: bool,
) -> Option<Seq<char>> {
    if !workspace_known {
        Some("No workspace selected"@)
    } else if !source_known {
        Some("No source selected"@)
    } else if !pattern_valid {
        Some("Invalid pattern"@)
    } else if !control_connected {
        Some("Sentinel not connected"@)
    } else if !has_control_addr {
        Some("Control API address not configured"@)
    } else {
        None
    }
}

impl RuleBuilderState {
    /// Clears the match results back to an empty exploration.
    pub open spec fn results_cleared(&self) -> bool {
        &&& self.match_count == 0
        &&& self.file_results_phase == FileResultsPhase::Exploration
        &&& self.folder_matches@.len() == 0
        &&& self.expanded_folder_indices@.len() == 0
        &&& self.detected_patterns@.len() == 0
    }

    /// Starts the match search for the builder's pattern in a workspace
    /// (`pattern_valid`: the pattern builds a matcher). The results are
    /// cleared. When the search cannot start (see `search_refusal`) the
    /// reason is the pattern error; once the pattern is valid the builder
    /// streams even if the search then cannot start. Returns whether the
    /// search goes ahead.
    pub fn begin_match_search(
        &mut self,
        workspace_id: Option<u128>,
        pattern_valid: bool,
        control_connected: bool,
        has_control_addr: bool,
    ) -> (r: bool)
        ensures
            final(self).results_cleared(),
            ({
                let why = search_refusal(
                    workspace_id is Some,
                    old(self).source_id is Some,
                    pattern_valid,
                    control_connected,
                    has_control_addr,
                );
                &&& r == (why is None)
                &&& match why {
                    Some(m) => final(self).pattern_error matches Some(e) && e@ == m,
                    None => final(self).pattern_error is None,
                }
            }),
            final(self).is_streaming == (if workspace_id is Some && old(self).source_id is Some
                && pattern_valid {
                true
            } else {
                old(self).is_streaming
            }),
            *final(self) == (RuleBuilderState {
                match_count: 0,
                file_results_phase: FileResultsPhase::Exploration,
                folder_matches: final(self).folder_matches,
                expanded_folder_indices: final(self).expanded_folder_indices,
                detected_patterns: final(self).detected_patterns,
                pattern_error: final(self).pattern_error,
                is_streaming: final(self).is_streaming,
                ..*old(self)
            }),
    {
        self.match_count = 0;
        self.file_results_phase = FileResultsPhase::Exploration;
        self.folder_matches = Vec::new();
        self.expanded_folder_indices = Vec::new();
        self.detected_patterns = Vec::new();
        if workspace_id.is_none() {
            self.pattern_error = Some(owned("No workspace selected"));
            return false;
        }
        if self.source_id.is_none() {
            self.pattern_error = Some(owned("No source selected"));
            return false;
        }
        if !pattern_valid {
            self.pattern_error = Some(owned("Invalid pattern"));
            return false;
        }
        self.is_streaming = true;
        if !control_connected {
            self.pattern_error = Some(owned("Sentinel not connected"));
            return false;
        }
        if !has_control_addr {
            self.pattern_error = Some(owned("Control API address not configured"));
            return false;
        }
        self.pattern_error = None;
        true
    }
}

/// Why the full schema evaluation cannot start (after an evaluation that
/// is already running, which is passed over silently), in the order it is
/// checked; `None` when it can.
pub open spec fn full_eval_refusal(
    source_known: bool,
    workspace_known: bool,
    control_connected: bool,
    has_control_addr: bool,
) -> Option<Seq<char>> {
    if !source_known {
        Some("No source selected"@)
    } else if !workspace_known {
        Some("No workspace selected"@)
    } else if !control_connected {
        Some("Sentinel not connected; cannot run full eval"@)
    } else if !has_control_addr {
        Some("Control API address not configured"@)
    } else {
        None
    }
}

/// The jobs list gained a running full evaluation over no paths yet,
/// named `id`, at its front (then trimmed).
pub open spec fn started_full_eval(old: Seq<crate::jobs::JobInfo>, new: Seq<crate::jobs::JobInfo>, id: i64) -> bool {
    exists|j: JobView|
        is_schema_eval_job(j, SchemaEvalMode::Full, 0, id) && jobs_view(new) == trimmed(
            seq![j] + jobs_view(old),
        )
}

impl DiscoverState {
    /// Starts the full schema evaluation of the rule builder's pattern: with
    /// no builder, or an evaluation running, nothing happens; when it cannot
    /// start (see `full_eval_refusal`) the status line says why; otherwise
    /// a full evaluation job over no paths yet is added (see
    /// `JobsState::add_schema_eval_job`) and its id returned.
    pub fn begin_full_schema_eval(
        &mut self,
        eval_running: bool,
        workspace_id: Option<u128>,
        control_connected: bool,
        has_control_addr: bool,
        jobs: &mut JobsState,
    ) -> (r: Option<i64>)
        ensures
            old(self).rule_builder is None || eval_running ==> r is None && *final(self) == *old(
                self,
            ) && *final(jobs) == *old(jobs),
            old(self).rule_builder is Some && !eval_running ==> {
                let b = old(self).rule_builder->0;
                let why = full_eval_refusal(
                    b.source_id is Some,
                    workspace_id is Some,
                    control_connected,
                    has_control_addr,
                );
                match why {
                    Some(m) => r is None && (final(self).status_message matches Some((t, true))
                        && t@ == m) && *final(self) == (DiscoverState {
                        status_message: final(self).status_message,
                        ..*old(self)
                    }) && *final(jobs) == *old(jobs),
                    None => r is Some && started_full_eval(old(jobs).jobs@, final(jobs).jobs@, r->0)
                        && final(jobs).same_but_jobs(old(jobs)) && *final(self) == *old(self),
                }
            },
    {
        let source_known = match &self.rule_builder {
            Some(b) => b.source_id.is_some(),
            None => {
                return None;
            },
        };
        if eval_running {
            return None;
        }
        if !source_known {
            self.status_message = Some((owned("No source selected"), true));
            return None;
        }
        if workspace_id.is_none() {
            self.status_message = Some((owned("No workspace selected"), true));
            return None;
        }
        if !control_connected {
            self.status_message = Some((owned("Sentinel not connected; cannot run full eval"), true));
            return None;
        }
        if !has_control_addr {
            self.status_message = Some((owned("Control API address not configured"), true));
            return None;
        }
        let id = jobs.add_schema_eval_job(SchemaEvalMode::Full, 0);

        Some(id)
    }
}


// ---------------------------------------------------------------------------
// The extraction preview
// ---------------------------------------------------------------------------

/// Most files shown in the extraction preview.
pub const PREVIEW_LIMIT: usize = 100;

/// A row of a pattern query: the file's relative path, whether the glob
/// matches it, and whether an exclude pattern matches it.
pub type PreviewRow = (String, bool, bool);

/// The row is previewed when the glob matches it and no exclude does.
pub open spec fn row_kept(row: PreviewRow) -> bool {
    row.1 && !row.2
}

/// Relative paths of the kept rows among the first `n`, at most
/// `PREVIEW_LIMIT` of them, in order.
pub open spec fn preview_paths_upto(rows: Seq<PreviewRow>, n: int) -> Seq<Seq<char>>
    decreases n,
{
    if n <= 0 {
        Seq::empty()
    } else {
        let rest = preview_paths_upto(rows, n - 1);
        if row_kept(rows[n - 1]) && rest.len() < PREVIEW_LIMIT {
            rest.push(rows[n - 1].0@)
        } else {
            rest
        }
    }
}

/// The preview files for the query rows: each kept row (see `row_kept`),
/// the first `PREVIEW_LIMIT` of them, with its path as both path and
/// relative path, the field values the parsed pattern reads from it (see
/// `extract_field_values`) and no warnings.
pub fn preview_files(rows: &Vec<PreviewRow>, parsed: &ParsedGlobPattern) -> (r: Vec<ExtractionPreviewFile>)
    requires
        forall|k: int|
            0 <= k < rows@.len() && row_kept(#[trigger] rows@[k]) ==> rows@[k].0@.len() < 0x7fff_ffff
                && alignment_in_range(rows@[k].0@, parsed.glob_pattern@, parsed.placeholders@.len()),
    ensures
        r@.map_values(|f: ExtractionPreviewFile| f.relative_path@) == preview_paths_upto(
            rows@,
            rows@.len() as int,
        ),
        forall|k: int|
            0 <= k < r@.len() ==> {
                &&& (#[trigger] r@[k]).path@ == r@[k].relative_path@
                &&& r@[k].extractions.view() == extract_spec(
                    r@[k].relative_path@,
                    parsed.glob_pattern@,
                    placeholders_view(parsed.placeholders@),
                )
                &&& r@[k].warnings@.len() == 0
            },
{
    let mut out: Vec<ExtractionPreviewFile> = Vec::new();
    let mut i: usize = 0;
    while i < rows.len()
        invariant
            i <= rows@.len(),
            forall|k: int|
                0 <= k < rows@.len() && row_kept(#[trigger] rows@[k]) ==> rows@[k].0@.len() < 0x7fff_ffff
                    && alignment_in_range(rows@[k].0@, parsed.glob_pattern@, parsed.placeholders@.len()),
            out@.map_values(|f: ExtractionPreviewFile| f.relative_path@) == preview_paths_upto(
                rows@,
                i as int,
            ),
            forall|k: int|
                0 <= k < out@.len() ==> {
                    &&& (#[trigger] out@[k]).path@ == out@[k].relative_path@
                    &&& out@[k].extractions.view() == extract_spec(
                        out@[k].relative_path@,
                        parsed.glob_pattern@,
                        placeholders_view(parsed.placeholders@),
                    )
                    &&& out@[k].warnings@.len() == 0
                },
        decreases rows@.len() - i,
    {
        let ghost before = out@;
        proof {
            assert(before.map_values(|f: ExtractionPreviewFile| f.relative_path@).len() == before.len());
        }
        if rows[i].1 && !rows[i].2 && out.len() < PREVIEW_LIMIT {
            proof {
                assert(row_kept(rows@[i as int]));
            }
            let rel = &rows[i].0;
            let extractions = extract_field_values(rel.as_str(), parsed);
            out.push(ExtractionPreviewFile {
                path: owned(rel.as_str()),
                relative_path: owned(rel.as_str()),
                extractions,
                warnings: Vec::new(),
            });
            proof {
                assert(out@.map_values(|f: ExtractionPreviewFile| f.relative_path@) =~= before.map_values(
                    |f: ExtractionPreviewFile| f.relative_path@,
                ).push(rows@[i as int].0@));
            }
        }
        i += 1;
    }
    out
}

/// Why the extraction preview cannot start, after the pattern parsed, in
/// the order it is checked; `None` when it can.
pub open spec fn preview_refusal(
    glob_valid: bool,
    workspace_known: bool,
    source_known: bool,
    control_connected: bool,
    has_control_addr: bool,
) -> Option<Seq<char>> {
    if !glob_valid {
        Some("Invalid glob pattern"@)
    } else if !workspace_known {
        Some("No workspace selected"@)
    } else if !source_known {
        Some("No source selected"@)
    } else if !control_connected {
        Some("Sentinel not connected"@)
    } else if !has_control_addr {
        Some("Control API address not configured"@)
    } else {
        None
    }
}

impl RuleBuilderState {
    /// The preview is cleared: no matches, and an empty extraction preview.
    pub open spec fn preview_cleared(&self) -> bool {
        &&& self.match_count == 0
        &&& self.file_results_phase == FileResultsPhase::ExtractionPreview
        &&& self.preview_files@.len() == 0
    }

    /// Starts the extraction preview for a pattern with placeholders, given
    /// how it parsed, the error (if any) from syncing the extractions with
    /// it, and whether its glob builds a matcher. A parse error becomes the
    /// pattern error and clears the preview. Otherwise the sync error (or
    /// none) becomes the pattern error; then, when the preview cannot start
    /// (see `preview_refusal`), the reason replaces it and the preview is
    /// cleared; else the match count is reset and the builder streams.
    /// Returns whether the preview query goes ahead.
    pub fn begin_extraction_preview(
        &mut self,
        parsed: &Result<ParsedGlobPattern, GlobParseError>,
        sync_error: Option<String>,
        glob_valid: bool,
        workspace_id: Option<u128>,
        control_connected: bool,
        has_control_addr: bool,
    ) -> (r: bool)
        ensures
            match parsed {
                Err(e) => !r && final(self).preview_cleared()
                    && (final(self).pattern_error matches Some(m) && m@ == e.message@) && *final(self) == (RuleBuilderState {
                    match_count: 0,
                    file_results_phase: FileResultsPhase::ExtractionPreview,
                    preview_files: final(self).preview_files,
                    pattern_error: final(self).pattern_error,
                    ..*old(self)
                }),
                Ok(_) => match preview_refusal(
                    glob_valid,
                    workspace_id is Some,
                    old(self).source_id is Some,
                    control_connected,
                    has_control_addr,
                ) {
                    Some(why) => !r && final(self).preview_cleared()
                        && (final(self).pattern_error matches Some(m) && m@ == why) && *final(self) == (RuleBuilderState {
                        match_count: 0,
                        file_results_phase: FileResultsPhase::ExtractionPreview,
                        preview_files: final(self).preview_files,
                        pattern_error: final(self).pattern_error,
                        ..*old(self)
                    }),
                    None => r && *final(self) == (RuleBuilderState {
                        match_count: 0,
                        is_streaming: true,
                        pattern_error: sync_error,
                        ..*old(self)
                    }),
                },
            },
    {
        match parsed {
            Err(e) => {
                self.match_count = 0;
                self.pattern_error = Some(owned(e.message.as_str()));
                self.file_results_phase = FileResultsPhase::ExtractionPreview;
                self.preview_files = Vec::new();
                return false;
            },
            Ok(_) => {},
        }
        self.pattern_error = sync_error;
        let why: Option<&str> = if !glob_valid {
            Some("Invalid glob pattern")
        } else if workspace_id.is_none() {
            Some("No workspace selected")
        } else if self.source_id.is_none() {
            Some("No source selected")
        } else if !control_connected {
            Some("Sentinel not connected")
        } else if !has_control_addr {
            Some("Control API address not configured")
        } else {
            None
        };
        match why {
            Some(m) => {
                self.match_count = 0;
                self.pattern_error = Some(owned(m));
                self.file_results_phase = FileResultsPhase::ExtractionPreview;
                self.preview_files = Vec::new();
                false
            },
            None => {
                self.match_count = 0;
                self.is_streaming = true;
                true
            },
        }
    }
}


// ---------------------------------------------------------------------------
// Results of the searches
// ---------------------------------------------------------------------------

/// What became of a search result.
#[derive(Debug, Clone, PartialEq, Eq)]
pub enum SearchOutcome {
    /// It was for another pattern and was dropped
    Stale,
    /// The search failed; the error is to be reported
    Failed(String),
    /// The results are shown; the sample evaluation is to run now
    Shown { run_sample_eval: bool },
}

/// A match search result is for the current pattern: its pattern is the
/// current one, or the current one under `**/`.
pub open spec fn search_current(result_pattern: Seq<char>, current: Seq<char>) -> bool {
    result_pattern == current || result_pattern == "**/"@ + current
}

impl RuleBuilderState {
    /// Takes a match search result for `pattern`: a stale one is dropped;
    /// a failure clears the results, stops streaming and becomes the
    /// pattern error; otherwise the folder matches are shown with the total
    /// count, streaming stops, and the sample evaluation is to run when
    /// something matched and no evaluation is busy.
    pub fn apply_search_result(
        &mut self,
        pattern: &str,
        folder_matches: Vec<FolderMatch>,
        total_count: usize,
        error: Option<String>,
        eval_busy: bool,
    ) -> (r: SearchOutcome)
        ensures
            !search_current(pattern@, old(self).pattern@) ==> r == SearchOutcome::Stale
                && *final(self) == *old(self),
            search_current(pattern@, old(self).pattern@) && error is Some ==> r
                == SearchOutcome::Failed(error->0),
            search_current(pattern@, old(self).pattern@) && error is Some
                ==> final(self).results_cleared(),
            search_current(pattern@, old(self).pattern@) && error is Some ==> *final(self) == (
            RuleBuilderState {
                match_count: 0,
                is_streaming: false,
                file_results_phase: FileResultsPhase::Exploration,
                folder_matches: final(self).folder_matches,
                expanded_folder_indices: final(self).expanded_folder_indices,
                detected_patterns: final(self).detected_patterns,
                pattern_error: error,
                ..*old(self)
            }),
            search_current(pattern@, old(self).pattern@) && error is None ==> r == (
            SearchOutcome::Shown { run_sample_eval: total_count > 0 && !eval_busy }),
            search_current(pattern@, old(self).pattern@) && error is None
                ==> final(self).folder_matches@ == folder_matches@,
            search_current(pattern@, old(self).pattern@) && error is None
                ==> final(self).expanded_folder_indices@.len() == 0
                && final(self).detected_patterns@.len() == 0,
            search_current(pattern@, old(self).pattern@) && error is None ==> *final(self) == (
            RuleBuilderState {
                match_count: total_count,
                is_streaming: false,
                file_results_phase: FileResultsPhase::Exploration,
                folder_matches: final(self).folder_matches,
                expanded_folder_indices: final(self).expanded_folder_indices,
                detected_patterns: final(self).detected_patterns,
                ..*old(self)
            }),
    {
        let current = self.pattern.as_str();
        let under = concat2("**/", current);
        if !str_eq(pattern, current) && !str_eq(pattern, under.as_str()) {
            return SearchOutcome::Stale;
        }
        self.file_results_phase = FileResultsPhase::Exploration;
        self.expanded_folder_indices = Vec::new();
        self.detected_patterns = Vec::new();
        self.is_streaming = false;
        match error {
            Some(err) => {
                self.folder_matches = Vec::new();
                self.match_count = 0;
                self.pattern_error = Some(err.clone());
                SearchOutcome::Failed(err)
            },
            None => {
                self.folder_matches = folder_matches;
                self.match_count = total_count;
                SearchOutcome::Shown { run_sample_eval: total_count > 0 && !eval_busy }
            },
        }
    }

    /// Takes an extraction preview result for `pattern`: one for another
    /// pattern is dropped (`None`); a failure clears the preview, stops
    /// streaming and becomes the pattern error (returned for reporting);
    /// otherwise the preview files are shown with the total count, the
    /// pattern error cleared, streaming stopped and the first file
    /// selected.
    pub fn apply_preview_result(
        &mut self,
        pattern: &str,
        preview_files: Vec<ExtractionPreviewFile>,
        total_count: usize,
        error: Option<String>,
    ) -> (r: Option<String>)
        ensures
            pattern@ != old(self).pattern@ ==> r is None && *final(self) == *old(self),
            pattern@ == old(self).pattern@ && error is Some ==> r == error
                && final(self).preview_cleared(),
            pattern@ == old(self).pattern@ && error is Some ==> *final(self) == (RuleBuilderState {
                match_count: 0,
                is_streaming: false,
                file_results_phase: FileResultsPhase::ExtractionPreview,
                preview_files: final(self).preview_files,
                pattern_error: error,
                ..*old(self)
            }),
            pattern@ == old(self).pattern@ && error is None ==> r is None
                && final(self).preview_files@ == preview_files@,
            pattern@ == old(self).pattern@ && error is None ==> *final(self) == (RuleBuilderState {
                match_count: total_count,
                is_streaming: false,
                file_results_phase: FileResultsPhase::ExtractionPreview,
                preview_files: final(self).preview_files,
                pattern_error: None,
                selected_file: 0,
                ..*old(self)
            }),
    {
        if !str_eq(pattern, self.pattern.as_str()) {
            return None;
        }
        self.file_results_phase = FileResultsPhase::ExtractionPreview;
        self.is_streaming = false;
        match error {
            Some(err) => {
                self.preview_files = Vec::new();
                self.match_count = 0;
                self.pattern_error = Some(err.clone());
                Some(err)
            },
            None => {
                self.preview_files = preview_files;
                self.match_count = total_count;
                self.pattern_error = None;
                self.selected_file = 0;
                None
            },
        }
    }

    /// A search or preview ended without a result: streaming stops.
    pub fn search_lost(&mut self)
        ensures
            *final(self) == (RuleBuilderState { is_streaming: false, ..*old(self) }),
    {
        self.is_streaming = false;
    }
}

} // verus!

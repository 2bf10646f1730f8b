//! The glob explorer's folder level and its cache: results of a pattern
//! search across the whole source, and of a folder query for one level,
//! which is cached by its prefix and shown when it is the current one.
use vstd::prelude::*;
use crate::discover::{FsEntry, GlobFileCount};
use crate::text::{concat2, str_eq};

verus! {

/// The same entry, copied.
pub fn duplicate_entry(e: &FsEntry) -> (r: FsEntry)
    ensures
        r == *e,
{
    match e {
        FsEntry::Folder { name, path, file_count } => FsEntry::Folder {
            name: name.clone(),
            path: match path {
                Some(p) => Some(p.clone()),
                None => None,
            },
            file_count: *file_count,
        },
        FsEntry::File { name, path, file_count } => FsEntry::File {
            name: name.clone(),
            path: match path {
                Some(p) => Some(p.clone()),
                None => None,
            },
            file_count: *file_count,
        },
        FsEntry::Loading { message } => FsEntry::Loading { message: message.clone() },
    }
}

/// The same entries, copied.
pub fn duplicate_entries(v: &Vec<FsEntry>) -> (r: Vec<FsEntry>)
    ensures
        r@ == v@,
{
    let mut out: Vec<FsEntry> = Vec::new();
    let mut i: usize = 0;
    while i < v.len()
        invariant
            i <= v@.len(),
            out@ == v@.subrange(0, i as int),
        decreases v@.len() - i,
    {
        out.push(duplicate_entry(&v[i]));
        i += 1;
        proof {
            assert(out@ =~= v@.subrange(0, i as int));
        }
    }
    proof {
        assert(v@.subrange(0, v@.len() as int) =~= v@);
    }
    out
}

// ---------------------------------------------------------------------------
// The folder cache
// ---------------------------------------------------------------------------

/// Cached folder levels by prefix; a prefix cached again replaces the
/// earlier level.
#[derive(Debug, Clone)]
pub struct FolderCache {
    entries: Vec<(String, Vec<FsEntry>)>,
}

pub open spec fn cache_map(e: Seq<(String, Vec<FsEntry>)>) -> Map<Seq<char>, Seq<FsEntry>>
    decreases e.len(),
{
    if e.len() == 0 {
        Map::empty()
    } else {
        cache_map(e.drop_last()).insert(e.last().0@, e.last().1@)
    }
}

/// Index of the last entry for prefix `k` (or -1).
pub open spec fn last_index_of_prefix(e: Seq<(String, Vec<FsEntry>)>, k: Seq<char>) -> int
    decreases e.len(),
{
    if e.len() == 0 {
        -1
    } else if e.last().0@ == k {
        e.len() - 1
    } else {
        last_index_of_prefix(e.drop_last(), k)
    }
}

proof fn lemma_cache_lookup(e: Seq<(String, Vec<FsEntry>)>, k: Seq<char>)
    ensures
        -1 <= last_index_of_prefix(e, k) < e.len(),
        cache_map(e).contains_key(k) <==> last_index_of_prefix(e, k) >= 0,
        last_index_of_prefix(e, k) >= 0 ==> e[last_index_of_prefix(e, k)].0@ == k
            && cache_map(e)[k] == e[last_index_of_prefix(e, k)].1@,
    decreases e.len(),
{
    if e.len() > 0 {
        lemma_cache_lookup(e.drop_last(), k);
        if e.last().0@ != k {
            let i = last_index_of_prefix(e.drop_last(), k);
            if i >= 0 {
                assert(e[i] == e.drop_last()[i]);
            }
        }
    }
}

impl FolderCache {
    pub closed spec fn view(&self) -> Map<Seq<char>, Seq<FsEntry>> {
        cache_map(self.entries@)
    }

    pub fn new() -> (r: Self)
        ensures
            r.view() == Map::<Seq<char>, Seq<FsEntry>>::empty(),
    {
        FolderCache { entries: Vec::new() }
    }

    /// Caches a level under its prefix, replacing any earlier one.
    pub fn insert(&mut self, prefix: String, level: Vec<FsEntry>)
        ensures
            final(self).view() == old(self).view().insert(prefix@, level@),
    {
        self.entries.push((prefix, level));
        proof {
            assert(self.entries@.drop_last() =~= old(self).entries@);
        }
    }

    /// The level cached under `prefix`, if any.
    pub fn get(&self, prefix: &str) -> (r: Option<&Vec<FsEntry>>)
        ensures
            match r {
                Some(v) => self.view().contains_key(prefix@) && self.view()[prefix@] == v@,
                None => !self.view().contains_key(prefix@),
            },
    {
        let mut i: usize = self.entries.len();
        assert(self.entries@.subrange(0, i as int) =~= self.entries@);
        while i > 0
            invariant
                i <= self.entries@.len(),
                last_index_of_prefix(self.entries@, prefix@) == last_index_of_prefix(
                    self.entries@.subrange(0, i as int),
                    prefix@,
                ),
            decreases i,
        {
            if str_eq(self.entries[i - 1].0.as_str(), prefix) {
                proof {
                    lemma_cache_lookup(self.entries@, prefix@);
                    let sub = self.entries@.subrange(0, i as int);
                    assert(sub.last() == self.entries@[i - 1]);
                    assert(last_index_of_prefix(sub, prefix@) == i - 1);
                }
                return Some(&self.entries[i - 1].1);
            }
            proof {
                let sub = self.entries@.subrange(0, i as int);
                assert(sub.drop_last() =~= self.entries@.subrange(0, i - 1));
            }
            i -= 1;
        }
        proof {
            lemma_cache_lookup(self.entries@, prefix@);
            assert(self.entries@.subrange(0, 0) =~= Seq::<(String, Vec<FsEntry>)>::empty());
        }
        None
    }
}

// ---------------------------------------------------------------------------
// Ordering a level by file count
// ---------------------------------------------------------------------------

/// First position from `k` on whose entry has fewer files than `c`; the
/// end when there is none.
pub open spec fn first_fewer_from(v: Seq<FsEntry>, c: nat, k: int) -> int
    decreases v.len() - k,
{
    if k >= v.len() || k < 0 {
        v.len() as int
    } else if (v[k].count_spec() as nat) < c {
        k
    } else {
        first_fewer_from(v, c, k + 1)
    }
}

/// The entries ordered by file count, most first, equal counts in their
/// given order (a stable sort).
pub open spec fn entries_by_count(v: Seq<FsEntry>) -> Seq<FsEntry>
    decreases v.len(),
{
    if v.len() == 0 {
        Seq::empty()
    } else {
        let sorted = entries_by_count(v.drop_last());
        sorted.insert(first_fewer_from(sorted, v.last().count_spec() as nat, 0), v.last())
    }
}

proof fn lemma_first_fewer(v: Seq<FsEntry>, c: nat, k: int)
    requires
        0 <= k <= v.len(),
    ensures
        k <= first_fewer_from(v, c, k) <= v.len(),
    decreases v.len() - k,
{
    if k < v.len() && (v[k].count_spec() as nat) >= c {
        lemma_first_fewer(v, c, k + 1);
    }
}

/// See `entries_by_count`.
pub fn sort_by_count(v: Vec<FsEntry>) -> (r: Vec<FsEntry>)
    ensures
        r@ == entries_by_count(v@),
{
    let ghost all = v@;
    let mut rest = v;
    let mut out: Vec<FsEntry> = Vec::new();
    let ghost mut taken: int = 0;
    while rest.len() > 0
        invariant
            0 <= taken <= all.len(),
            rest@ == all.subrange(taken, all.len() as int),
            out@ == entries_by_count(all.subrange(0, taken)),
        decreases rest@.len(),
    {
        let ghost before = rest@;
        proof {
            assert(taken < all.len());
            assert(before[0] == all[taken]);
        }
        let e = rest.remove(0);
        let c = e.file_count();
        let ghost sorted = out@;
        proof {
            lemma_first_fewer(sorted, c as nat, 0);
        }
        let mut p: usize = 0;
        while p < out.len() && out[p].file_count() >= c
            invariant
                p <= out@.len(),
                sorted == out@,
                first_fewer_from(sorted, c as nat, 0) == first_fewer_from(sorted, c as nat, p as int),
            decreases out@.len() - p,
        {
            p += 1;
        }
        proof {
            let next = all.subrange(0, taken + 1);
            assert(next.drop_last() =~= all.subrange(0, taken));
            assert(next.last() == all[taken]);
        }
        out.insert(p, e);
        proof {
            assert(rest@ =~= all.subrange(taken + 1, all.len() as int));
            taken = taken + 1;
        }
    }
    proof {
        assert(all.subrange(0, taken) =~= all);
    }
    out
}

// ---------------------------------------------------------------------------
// The explorer
// ---------------------------------------------------------------------------

/// The glob explorer: the pattern and folder level shown, the navigation
/// history, and the cache of folder levels for a workspace's source.
#[derive(Debug, Clone)]
pub struct GlobExplorerState {
    /// Current glob pattern filter (e.g. "*.csv", "**/*.json")
    pub pattern: String,
    /// (prefix, pattern) pairs for going back
    pub nav_history: Vec<(String, String)>,
    /// Current path prefix (empty at the root, "folder/" inside a folder)
    pub current_prefix: String,
    /// Entries of the current level with their file counts
    pub folders: Vec<FsEntry>,
    pub total_count: GlobFileCount,
    pub folder_cache: FolderCache,
    pub cache_loaded: bool,
    pub cache_source_id: Option<i64>,
    pub cache_workspace_id: Option<u128>,
    pub selected_folder: usize,
    pub pattern_cursor: usize,
    pub last_searched_pattern: String,
    pub last_searched_prefix: String,
    pub excludes: Vec<String>,
    /// A scan of the source is running
    pub scan_in_progress: bool,
}

/// The single placeholder row "Error: {message}".
pub open spec fn error_row(folders: Seq<FsEntry>, message: Seq<char>) -> bool {
    folders.len() == 1 && (folders[0] matches FsEntry::Loading { message: m } && m@ == "Error: "@
        + message)
}

impl GlobExplorerState {
    /// Takes a pattern search result for `pattern`: one for another pattern
    /// is dropped (`None`); a failure shows the single row "Error: {error}"
    /// with a count of 0 (and is returned for reporting); otherwise the
    /// found entries are shown with their exact count. Either way the first
    /// row is selected.
    pub fn apply_glob_search(
        &mut self,
        pattern: &str,
        folders: Vec<FsEntry>,
        total_count: usize,
        error: Option<String>,
    ) -> (r: Option<String>)
        ensures
            pattern@ != old(self).pattern@ ==> r is None && *final(self) == *old(self),
            pattern@ == old(self).pattern@ && error is Some ==> r == error && error_row(
                final(self).folders@,
                error->0@,
            ) && *final(self) == (GlobExplorerState {
                folders: final(self).folders,
                total_count: GlobFileCount::Exact(0),
                selected_folder: 0,
                ..*old(self)
            }),
            pattern@ == old(self).pattern@ && error is None ==> r is None && *final(self) == (
            GlobExplorerState {
                folders,
                total_count: GlobFileCount::Exact(total_count),
                selected_folder: 0,
                ..*old(self)
            }),
    {
        if !str_eq(pattern, self.pattern.as_str()) {
            return None;
        }
        self.selected_folder = 0;
        match error {
            Some(err) => {
                let message = concat2("Error: ", err.as_str());
                self.folders = vec![FsEntry::loading(message.as_str())];
                self.total_count = GlobFileCount::Exact(0);
                Some(err)
            },
            None => {
                self.folders = folders;
                self.total_count = GlobFileCount::Exact(total_count);
                None
            },
        }
    }

    /// Takes a folder level loaded for `prefix` in `workspace_id`: a level
    /// for another workspace than the active one, or than the cache's, is
    /// dropped; otherwise it is cached under its prefix and, when the prefix
    /// is the current one, shown ordered by file count (see
    /// `entries_by_count`) with its exact count and the first row selected.
    pub fn apply_folder_query(
        &mut self,
        active_workspace: Option<u128>,
        workspace_id: u128,
        prefix: String,
        folders: Vec<FsEntry>,
        total_count: usize,
    )
        ensures
            active_workspace != Some(workspace_id) || old(self).cache_workspace_id != Some(workspace_id)
                ==> *final(self) == *old(self),
            active_workspace == Some(workspace_id) && old(self).cache_workspace_id == Some(workspace_id)
                ==> final(self).folder_cache.view() == old(self).folder_cache.view().insert(
                prefix@,
                folders@,
            ),
            active_workspace == Some(workspace_id) && old(self).cache_workspace_id == Some(workspace_id)
                && old(self).current_prefix@ == prefix@ ==> *final(self) == (GlobExplorerState {
                folders: final(self).folders,
                total_count: GlobFileCount::Exact(total_count),
                selected_folder: 0,
                folder_cache: final(self).folder_cache,
                ..*old(self)
            }) && final(self).folders@ == entries_by_count(folders@),
            active_workspace == Some(workspace_id) && old(self).cache_workspace_id == Some(workspace_id)
                && old(self).current_prefix@ != prefix@ ==> *final(self) == (GlobExplorerState {
                folder_cache: final(self).folder_cache,
                ..*old(self)
            }),
    {
        if active_workspace != Some(workspace_id) || self.cache_workspace_id != Some(workspace_id) {
            return;
        }
        let shown = str_eq(self.current_prefix.as_str(), prefix.as_str());
        let copy = duplicate_entries(&folders);
        self.folder_cache.insert(prefix, copy);
        if shown {
            self.folders = sort_by_count(folders);
            self.total_count = GlobFileCount::Exact(total_count);
            self.selected_folder = 0;
        }
    }

    /// A folder query failed: the level shows the single row
    /// "Error: {error}".
    pub fn apply_folder_query_error(&mut self, error: &str)
        ensures
            error_row(final(self).folders@, error@),
            *final(self) == (GlobExplorerState { folders: final(self).folders, ..*old(self) }),
    {
        let message = concat2("Error: ", error);
        self.folders = vec![FsEntry::loading(message.as_str())];
    }
}


/// Files of the entries of a level.
pub open spec fn level_files(v: Seq<FsEntry>) -> nat
    decreases v.len(),
{
    if v.len() == 0 {
        0
    } else {
        level_files(v.drop_last()) + v.last().count_spec() as nat
    }
}

impl GlobExplorerState {
    /// The source's whole folder cache was loaded for a workspace: it
    /// replaces the cache, which now belongs to that workspace and source;
    /// the first row is selected, and the root level, when cached, is shown
    /// with the total of its file counts.
    pub fn apply_cache_loaded(&mut self, workspace_id: u128, source_id: i64, cache: FolderCache)
        requires
            cache.view().contains_key(Seq::<char>::empty()) ==> level_files(
                cache.view()[Seq::<char>::empty()],
            ) <= usize::MAX,
        ensures
            final(self).folder_cache.view() == cache.view(),
            cache.view().contains_key(Seq::<char>::empty()) ==> final(self).folders@
                == cache.view()[Seq::<char>::empty()] && final(self).total_count == GlobFileCount::Exact(
                level_files(cache.view()[Seq::<char>::empty()]) as usize,
            ),
            !cache.view().contains_key(Seq::<char>::empty()) ==> final(self).folders
                == old(self).folders && final(self).total_count == old(self).total_count,
            *final(self) == (GlobExplorerState {
                folder_cache: final(self).folder_cache,
                cache_loaded: true,
                cache_source_id: Some(source_id),
                cache_workspace_id: Some(workspace_id),
                selected_folder: 0,
                folders: final(self).folders,
                total_count: final(self).total_count,
                ..*old(self)
            }),
    {
        self.folder_cache = cache;
        self.cache_loaded = true;
        self.cache_source_id = Some(source_id);
        self.cache_workspace_id = Some(workspace_id);
        self.selected_folder = 0;
        proof {
            reveal_strlit("");
            assert(""@ =~= Seq::<char>::empty());
        }
        match self.folder_cache.get("") {
            Some(root) => {
                let mut total: usize = 0;
                let mut i: usize = 0;
                while i < root.len()
                    invariant
                        i <= root@.len(),
                        total == level_files(root@.subrange(0, i as int)),
                        level_files(root@) <= usize::MAX,
                    decreases root@.len() - i,
                {
                    proof {
                        let next = root@.subrange(0, i + 1);
                        assert(next.drop_last() =~= root@.subrange(0, i as int));
                        lemma_level_files_prefix(root@, i + 1);
                    }
                    total = total + root[i].file_count();
                    i += 1;
                }
                proof {
                    assert(root@.subrange(0, root@.len() as int) =~= root@);
                }
                self.folders = duplicate_entries(root);
                self.total_count = GlobFileCount::Exact(total);
            },
            None => {},
        }
    }

    /// Loading the cache failed: the level is emptied (so the error can
    /// show).
    pub fn apply_cache_error(&mut self)
        ensures
            *final(self) == (GlobExplorerState { folders: final(self).folders, ..*old(self) }),
            final(self).folders@.len() == 0,
    {
        self.folders = Vec::new();
    }
}

proof fn lemma_level_files_prefix(v: Seq<FsEntry>, n: int)
    requires
        0 <= n <= v.len(),
    ensures
        level_files(v.subrange(0, n)) <= level_files(v),
    decreases v.len() - n,
{
    if n < v.len() {
        lemma_level_files_prefix(v, n + 1);
        let next = v.subrange(0, n + 1);
        assert(next.drop_last() =~= v.subrange(0, n));
    } else {
        assert(v.subrange(0, n) =~= v);
    }
}

} // verus!

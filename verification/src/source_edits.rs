//! Renaming and deleting sources on the Sources screen. The change shows at
//! once in the list and is queued for storing; a blocked write only says so.
use vstd::prelude::*;
use crate::discover::{PendingSourceCreate, PendingSourceDelete, PendingSourceUpdate, SourceInfo};
use crate::discover_state::{find_source, first_position, repaired_selection, source_ids, DiscoverState};
use crate::background::{file_name_of, path_file_name};
use crate::shell::SourcesState;
use crate::text::{concat3, owned, str_chars, str_eq, string_from_chars, trim_chars, trim_seq};

verus! {

/// Another source (not `id`) already has this name.
pub open spec fn name_taken(sources: Seq<SourceInfo>, name: Seq<char>, id: i64) -> bool {
    exists|k: int| 0 <= k < sources.len() && sources[k].name@ == name && #[trigger] sources[k].id != id
}

/// The status line: a message and whether it reports an error.
pub open spec fn status_is(status: Option<(String, bool)>, text: Seq<char>, error: bool) -> bool {
    match status {
        Some(p) => p.0@ == text && p.1 == error,
        None => false,
    }
}

/// The list with the first source of this id renamed.
pub open spec fn renamed(old: Seq<SourceInfo>, new: Seq<SourceInfo>, id: i64, name: Seq<char>) -> bool {
    &&& new.len() == old.len()
    &&& forall|k: int|
        0 <= k < old.len() ==> if first_position(source_ids(old), id, k) {
            new[k].name@ == name && new[k].id == old[k].id && new[k].path == old[k].path
                && new[k].file_count == old[k].file_count
        } else {
            #[trigger] new[k] == old[k]
        }
}

/// The sources other than `id`, in order.
pub open spec fn without_source(sources: Seq<SourceInfo>, id: i64) -> Seq<SourceInfo>
    decreases sources.len(),
{
    if sources.len() == 0 {
        sources
    } else {
        let rest = without_source(sources.drop_last(), id);
        if sources.last().id == id {
            rest
        } else {
            rest.push(sources.last())
        }
    }
}

/// A selection past the end of a list of `len` moves to its last row.
pub open spec fn kept_in_list(selected: usize, len: nat) -> usize {
    if selected >= len && selected > 0 {
        if len == 0 {
            0
        } else {
            (len - 1) as usize
        }
    } else {
        selected
    }
}

proof fn lemma_tail_shift<T>(a: Seq<T>, b: Seq<T>, i: int, j: int)
    requires
        0 <= i < a.len(),
        0 <= j < b.len(),
        a.subrange(i, a.len() as int) == b.subrange(j, b.len() as int),
    ensures
        a.subrange(i + 1, a.len() as int) == b.subrange(j + 1, b.len() as int),
{
    assert(a.subrange(i + 1, a.len() as int) =~= a.subrange(i, a.len() as int).drop_first());
    assert(b.subrange(j + 1, b.len() as int) =~= b.subrange(j, b.len() as int).drop_first());
}

/// Law: after a deletion no listed source has the deleted id, and every
/// other source stays listed.
pub proof fn law_deleted_source_is_gone(sources: Seq<SourceInfo>, id: i64)
    ensures
        forall|k: int| 0 <= k < without_source(sources, id).len() ==> #[trigger] without_source(sources, id)[k].id != id,
        forall|k: int| 0 <= k < sources.len() && sources[k].id != id ==> without_source(sources, id).contains(#[trigger] sources[k]),
    decreases sources.len(),
{
    if sources.len() > 0 {
        let init = sources.drop_last();
        law_deleted_source_is_gone(init, id);
        let rest = without_source(init, id);
        assert forall|k: int| 0 <= k < sources.len() && sources[k].id != id implies without_source(sources, id).contains(
            #[trigger] sources[k],
        ) by {
            if k < sources.len() - 1 {
                assert(init[k] == sources[k]);
                let w = choose|w: int| 0 <= w < rest.len() && rest[w] == init[k];
                if sources.last().id != id {
                    assert(without_source(sources, id)[w] == sources[k]);
                }
            } else {
                if sources.last().id != id {
                    assert(without_source(sources, id)[rest.len() as int] == sources[k]);
                }
            }
        }
    }
}

/// The name a new source gets: the given name trimmed, else the path's last
/// component, else the path itself.
pub open spec fn new_source_name(path: Seq<char>, name: Seq<char>) -> Seq<char> {
    if trim_seq(name).len() > 0 {
        trim_seq(name)
    } else {
        match path_file_name(path) {
            Some(n) => n,
            None => path,
        }
    }
}

/// Some listed source already has this name.
pub open spec fn name_in_use(sources: Seq<SourceInfo>, name: Seq<char>) -> bool {
    exists|k: int| 0 <= k < sources.len() && #[trigger] sources[k].name@ == name
}

impl DiscoverState {
    /// The checks before a source is created that need no file system: a
    /// blocked write says the database is read-only; no workspace, that
    /// there is none; a name already in use, that it exists (see
    /// `new_source_name`). Otherwise the name to use is returned and
    /// nothing changes.
    pub fn begin_source_create(&mut self, blocked: bool, workspace_id: Option<u128>, path: &str, name: &str) -> (r: Option<String>)
        ensures
            ({
                let n = new_source_name(path@, name@);
                if blocked {
                    r is None && status_is(final(self).status_message, "Database is read-only; cannot create sources"@, true)
                } else if workspace_id is None {
                    r is None && status_is(final(self).status_message, "No workspace selected; cannot create source"@, true)
                } else if name_in_use(old(self).sources@, n) {
                    r is None && status_is(final(self).status_message, "Source name '"@ + n + "' already exists"@, true)
                } else {
                    (r matches Some(t) && t@ == n) && final(self).status_message == old(self).status_message
                }
            }),
            *final(self) == (DiscoverState { status_message: final(self).status_message, ..*old(self) }),
    {
        if blocked {
            self.status_message = Some((owned("Database is read-only; cannot create sources"), true));
            return None;
        }
        if workspace_id.is_none() {
            self.status_message = Some((owned("No workspace selected; cannot create source"), true));
            return None;
        }
        let chars = str_chars(name);
        let trimmed = string_from_chars(trim_chars(chars.as_slice()).as_slice());
        let source_name = if !trimmed.as_str().is_empty() {
            trimmed
        } else {
            match file_name_of(path) {
                Some(n) => n,
                None => owned(path),
            }
        };
        let mut k: usize = 0;
        while k < self.sources.len()
            invariant
                k <= self.sources@.len(),
                *self == *old(self),
                source_name@ == new_source_name(path@, name@),
                !blocked,
                workspace_id is Some,
                forall|j: int| 0 <= j < k ==> #[trigger] self.sources@[j].name@ != source_name@,
            decreases self.sources@.len() - k,
        {
            if str_eq(self.sources[k].name.as_str(), source_name.as_str()) {
                proof {
                    assert(old(self).sources@[k as int].name@ == source_name@);
                }
                self.status_message = Some((concat3("Source name '", source_name.as_str(), "' already exists"), true));
                return None;
            }
            k += 1;
        }
        Some(source_name)
    }

    /// Creates a source whose path passed its checks: it is queued for
    /// storing, listed with no files and selected, the Sources list moves
    /// to it, and "Created source '{name}'" is reported.
    pub fn finish_source_create(
        &mut self,
        workspace_id: u128,
        source_id: i64,
        name: String,
        path: String,
        sources_state: &mut SourcesState,
    )
        ensures
            final(self).pending_source_creates@ == old(self).pending_source_creates@.push(
                PendingSourceCreate { workspace_id, id: source_id, name, path },
            ),
            final(self).sources@ == old(self).sources@.push(
                SourceInfo { id: source_id, name, path, file_count: 0 },
            ),
            final(self).selected_source_id == Some(source_id),
            status_is(final(self).status_message, "Created source '"@ + name@ + "'"@, false),
            *final(self) == (DiscoverState {
                pending_source_creates: final(self).pending_source_creates,
                sources: final(self).sources,
                selected_source_id: Some(source_id),
                status_message: final(self).status_message,
                ..*old(self)
            }),
            *final(sources_state) == (SourcesState {
                selected_index: old(self).sources@.len() as usize,
                ..*old(sources_state)
            }),
    {
        let message = concat3("Created source '", name.as_str(), "'");
        self.pending_source_creates.push(PendingSourceCreate {
            workspace_id,
            id: source_id,
            name: name.clone(),
            path: path.clone(),
        });
        self.sources.push(SourceInfo { id: source_id, name, path, file_count: 0 });
        self.selected_source_id = Some(source_id);
        sources_state.selected_index = self.sources.len() - 1;
        self.status_message = Some((message, false));
    }

    /// Renames a source. A blocked write says the database is read-only; a
    /// name that is empty once trimmed changes nothing; a name another
    /// source has is refused; otherwise the first source with the id gets
    /// the trimmed name, the rename is queued and reported.
    pub fn update_source_name(&mut self, blocked: bool, source_id: i64, new_name: &str)
        ensures
            ({
                let t = trim_seq(new_name@);
                if blocked {
                    &&& status_is(final(self).status_message, "Database is read-only; cannot rename sources"@, true)
                    &&& *final(self) == (DiscoverState { status_message: final(self).status_message, ..*old(self) })
                } else if t.len() == 0 {
                    *final(self) == *old(self)
                } else if name_taken(old(self).sources@, t, source_id) {
                    &&& status_is(
                        final(self).status_message,
                        "Source name '"@ + t + "' already exists"@,
                        true,
                    )
                    &&& *final(self) == (DiscoverState { status_message: final(self).status_message, ..*old(self) })
                } else {
                    &&& status_is(final(self).status_message, "Renamed source to '"@ + t + "'"@, false)
                    &&& renamed(old(self).sources@, final(self).sources@, source_id, t)
                    &&& final(self).pending_source_updates@.len() == old(self).pending_source_updates@.len() + 1
                    &&& final(self).pending_source_updates@.drop_last() == old(self).pending_source_updates@
                    &&& final(self).pending_source_updates@.last().id == source_id
                    &&& final(self).pending_source_updates@.last().name matches Some(n) && n@ == t
                    &&& final(self).pending_source_updates@.last().path is None
                    &&& *final(self) == (DiscoverState {
                        status_message: final(self).status_message,
                        sources: final(self).sources,
                        pending_source_updates: final(self).pending_source_updates,
                        ..*old(self)
                    })
                }
            }),
    {
        if blocked {
            self.status_message = Some((owned("Database is read-only; cannot rename sources"), true));
            return;
        }
        let chars = str_chars(new_name);
        let t = string_from_chars(trim_chars(chars.as_slice()).as_slice());
        if t.as_str().is_empty() {
            return;
        }
        let mut k: usize = 0;
        while k < self.sources.len()
            invariant
                k <= self.sources@.len(),
                *self == *old(self),
                t@ == trim_seq(new_name@),
                t@.len() > 0,
                !blocked,
                forall|j: int|
                    0 <= j < k ==> !(self.sources@[j].name@ == t@ && #[trigger] self.sources@[j].id
                        != source_id),
            decreases self.sources@.len() - k,
        {
            if str_eq(self.sources[k].name.as_str(), t.as_str()) && self.sources[k].id != source_id {
                proof {
                    assert(old(self).sources@[k as int].name@ == t@ && old(self).sources@[k as int].id
                        != source_id);
                }
                self.status_message = Some((concat3("Source name '", t.as_str(), "' already exists"), true));
                return;
            }
            k += 1;
        }
        let ghost before = self.sources@;
        match find_source(&self.sources, source_id) {
            Some(i) => {
                let mut s = self.sources.remove(i);
                s.name = owned(t.as_str());
                self.sources.insert(i, s);
                proof {
                    assert forall|j: int| 0 <= j < before.len() && !first_position(source_ids(before), source_id, j)
                        implies #[trigger] self.sources@[j] == before[j] by {
                        assert(j != i);
                    }
                    assert forall|j: int| 0 <= j < before.len() && first_position(source_ids(before), source_id, j)
                        implies j == i by {
                        crate::discover_state::lemma_first_position_unique(source_ids(before), source_id, i as int, j);
                    }
                }
            },
            None => {
                proof {
                    assert forall|j: int| 0 <= j < before.len() implies !first_position(source_ids(before), source_id, j) by {
                        if first_position(source_ids(before), source_id, j) {
                            assert(source_ids(before)[j] == source_id);
                        }
                    }
                }
            },
        }
        self.pending_source_updates.push(PendingSourceUpdate { id: source_id, name: Some(owned(t.as_str())), path: None });
        self.status_message = Some((concat3("Renamed source to '", t.as_str(), "'"), false));
    }

    /// Deletes a source. A blocked write says the database is read-only;
    /// otherwise the deletion is queued, every source with the id leaves the
    /// list, the selected source is repaired, and the two list selections
    /// past the end move to the last row.
    pub fn delete_source(&mut self, blocked: bool, source_id: i64, sources_state: &mut SourcesState)
        ensures
            blocked ==> status_is(final(self).status_message, "Database is read-only; cannot delete sources"@, true)
                && *final(self) == (DiscoverState { status_message: final(self).status_message, ..*old(self) })
                && *final(sources_state) == *old(sources_state),
            !blocked ==> {
                let rest = without_source(old(self).sources@, source_id);
                &&& final(self).sources@ == rest
                &&& final(self).pending_source_deletes@ == old(self).pending_source_deletes@.push(
                    PendingSourceDelete { id: source_id },
                )
                &&& final(self).selected_source_id == repaired_selection(source_ids(rest), old(self).selected_source_id)
                &&& final(self).sources_manager_selected == kept_in_list(old(self).sources_manager_selected, rest.len())
                &&& *final(self) == (DiscoverState {
                    sources: final(self).sources,
                    pending_source_deletes: final(self).pending_source_deletes,
                    selected_source_id: final(self).selected_source_id,
                    sources_manager_selected: final(self).sources_manager_selected,
                    ..*old(self)
                })
                &&& *final(sources_state) == (SourcesState {
                    selected_index: kept_in_list(old(sources_state).selected_index, rest.len()),
                    ..*old(sources_state)
                })
            },
    {
        if blocked {
            self.status_message = Some((owned("Database is read-only; cannot delete sources"), true));
            return;
        }
        self.pending_source_deletes.push(PendingSourceDelete { id: source_id });
        let ghost orig = self.sources@;
        let ghost pre = *self;
        let mut i: usize = 0;
        let ghost mut j: int = 0;
        while i < self.sources.len()
            invariant
                0 <= i <= j <= orig.len(),
                *self == (DiscoverState { sources: self.sources, ..pre }),
                self.sources@.len() == i + (orig.len() - j),
                self.sources@.subrange(0, i as int) == without_source(orig.subrange(0, j), source_id),
                self.sources@.subrange(i as int, self.sources@.len() as int) == orig.subrange(j, orig.len() as int),
            decreases self.sources@.len() - i,
        {
            proof {
                let next = orig.subrange(0, j + 1);
                assert(next.drop_last() =~= orig.subrange(0, j));
                assert(self.sources@[i as int] == self.sources@.subrange(i as int, self.sources@.len() as int)[0]);
                assert(next.last() == orig[j]);
            }
            if self.sources[i].id == source_id {
                let ghost before = self.sources@;
                let _gone = self.sources.remove(i);
                proof {
                    assert(self.sources@.subrange(0, i as int) =~= before.subrange(0, i as int));
                    assert(self.sources@.subrange(i as int, self.sources@.len() as int) =~= before.subrange(
                        i + 1,
                        before.len() as int,
                    ));
                    lemma_tail_shift(before, orig, i as int, j);
                    j = j + 1;
                }
            } else {
                proof {
                    let before = self.sources@;
                    assert(before.subrange(0, i + 1) =~= before.subrange(0, i as int).push(before[i as int]));
                    lemma_tail_shift(before, orig, i as int, j);
                    j = j + 1;
                }
                i += 1;
            }
        }
        proof {
            assert(self.sources@.subrange(0, i as int) =~= self.sources@);
            assert(orig.subrange(0, j) =~= orig);
        }
        self.validate_source_selection();
        let n = self.sources.len();
        if sources_state.selected_index >= n && sources_state.selected_index > 0 {
            sources_state.selected_index = if n == 0 {
                0
            } else {
                n - 1
            };
        }
        if self.sources_manager_selected >= n && self.sources_manager_selected > 0 {
            self.sources_manager_selected = if n == 0 {
                0
            } else {
                n - 1
            };
        }
    }
}

} // verus!

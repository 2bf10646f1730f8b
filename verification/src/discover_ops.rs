//! Work on the Discover screen's files: which files the filters show,
//! tagging a file (queued for the store), and the tag list built from the
//! store's counts.
use vstd::prelude::*;
use crate::backend::BackendRouter;
use crate::discover::{PendingTagWrite, TagInfo, TagSource};
use crate::discover_state::{tag_filter_for, DiscoverState, FileInfo, TagFilterView};
use crate::discover::DiscoverViewState;
use crate::text::{
    chars_contains, i64_to_decimal, owned, push_str, seq_contains, str_chars, str_eq,
    strings_view, to_lowercase, trim_chars, trim_seq, unicode_lower,
};

verus! {

/// The file passes the tag filter.
pub open spec fn tag_ok(f: FileInfo, filter: TagFilterView) -> bool {
    match filter {
        TagFilterView::All => true,
        TagFilterView::Untagged => f.tags@.len() == 0,
        TagFilterView::Tag(t) => strings_view(f.tags@).contains(t),
    }
}

/// A text filter with `*` or `?` is a glob.
pub open spec fn is_glob_filter(filter: Seq<char>) -> bool {
    trim_seq(filter).contains('*') || trim_seq(filter).contains('?')
}

/// The file at `i` is shown: it passes the tag filter, and, when there is
/// a text filter, the glob's match for it (every file when the glob did not
/// build) or, for plain text, its lowered path contains the lowered text.
pub open spec fn file_shown(
    files: Seq<FileInfo>,
    i: int,
    tags: TagFilterView,
    filter: Seq<char>,
    glob_matches: Option<Seq<bool>>,
    lowered_paths: Seq<Seq<char>>,
    lowered_filter: Seq<char>,
) -> bool {
    &&& tag_ok(files[i], tags)
    &&& (trim_seq(filter).len() == 0 || if is_glob_filter(filter) {
        match glob_matches {
            Some(m) => m[i],
            None => true,
        }
    } else {
        seq_contains(lowered_paths[i], lowered_filter)
    })
}

/// Positions below `n` of the files shown, in order.
pub open spec fn shown_indices(
    files: Seq<FileInfo>,
    n: nat,
    tags: TagFilterView,
    filter: Seq<char>,
    glob_matches: Option<Seq<bool>>,
    lowered_paths: Seq<Seq<char>>,
    lowered_filter: Seq<char>,
) -> Seq<usize>
    decreases n,
{
    if n == 0 {
        Seq::empty()
    } else {
        let prev = shown_indices(
            files,
            (n - 1) as nat,
            tags,
            filter,
            glob_matches,
            lowered_paths,
            lowered_filter,
        );
        if file_shown(files, n - 1, tags, filter, glob_matches, lowered_paths, lowered_filter) {
            prev.push((n - 1) as usize)
        } else {
            prev
        }
    }
}

/// The glob's matches, viewed.
pub open spec fn matches_view(m: Option<Vec<bool>>) -> Option<Seq<bool>> {
    match m {
        Some(v) => Some(v@),
        None => None,
    }
}

fn has_star_or_question(v: &[char]) -> (r: bool)
    ensures
        r == (v@.contains('*') || v@.contains('?')),
{
    let mut i: usize = 0;
    while i < v.len()
        invariant
            i <= v@.len(),
            forall|k: int| 0 <= k < i ==> v@[k] != '*' && v@[k] != '?',
        decreases v@.len() - i,
    {
        if v[i] == '*' || v[i] == '?' {
            return true;
        }
        i += 1;
    }
    false
}

fn tags_contain(tags: &Vec<String>, t: &str) -> (r: bool)
    ensures
        r == strings_view(tags@).contains(t@),
{
    let mut i: usize = 0;
    while i < tags.len()
        invariant
            i <= tags@.len(),
            forall|k: int| 0 <= k < i ==> tags@[k]@ != t@,
        decreases tags@.len() - i,
    {
        if str_eq(tags[i].as_str(), t) {
            proof {
                assert(strings_view(tags@)[i as int] == t@);
            }
            return true;
        }
        i += 1;
    }
    proof {
        if strings_view(tags@).contains(t@) {
            let k = choose|k: int| 0 <= k < strings_view(tags@).len() && strings_view(tags@)[k] == t@;
            assert(tags@[k]@ == t@);
        }
    }
    false
}

impl DiscoverState {
    /// The tag filter in force, viewed (see `active_tag_filter`).
    pub open spec fn tag_filter_view(&self) -> TagFilterView {
        tag_filter_for(
            self.tags@,
            if self.view_state == DiscoverViewState::TagsDropdown {
                self.preview_tag
            } else {
                self.selected_tag
            },
        )
    }

    /// Whether the text filter is a glob (it has `*` or `?`), so that the
    /// paths are to be matched against it.
    pub fn filter_is_glob(&self) -> (r: bool)
        ensures
            r == is_glob_filter(self.filter@),
    {
        let chars = str_chars(self.filter.as_str());
        let t = trim_chars(chars.as_slice());
        has_star_or_question(t.as_slice())
    }

    /// Positions of the files shown, given for each file whether the glob
    /// filter matches its path (`None` when the glob does not build), and
    /// the lowered paths and lowered, trimmed filter text.
    pub fn visible_file_indices(
        &self,
        glob_matches: &Option<Vec<bool>>,
        lowered_paths: &Vec<String>,
        lowered_filter: &str,
    ) -> (r: Vec<usize>)
        requires
            glob_matches matches Some(m) ==> m@.len() == self.files@.len(),
            lowered_paths@.len() == self.files@.len(),
        ensures
            r@ == shown_indices(
                self.files@,
                self.files@.len(),
                self.tag_filter_view(),
                self.filter@,
                matches_view(*glob_matches),
                strings_view(lowered_paths@),
                lowered_filter@,
            ),
    {
        let tag_filter = self.active_tag_filter();
        let chars = str_chars(self.filter.as_str());
        let trimmed = trim_chars(chars.as_slice());
        let has_filter = trimmed.len() > 0;
        let is_glob = has_star_or_question(trimmed.as_slice());
        let needle = str_chars(lowered_filter);
        let mut out: Vec<usize> = Vec::new();
        let mut i: usize = 0;
        while i < self.files.len()
            invariant
                i <= self.files@.len(),
                glob_matches matches Some(m) ==> m@.len() == self.files@.len(),
                lowered_paths@.len() == self.files@.len(),
                tag_filter@ == self.tag_filter_view(),
                has_filter == (trim_seq(self.filter@).len() > 0),
                is_glob == is_glob_filter(self.filter@),
                needle@ == lowered_filter@,
                out@ == shown_indices(
                    self.files@,
                    i as nat,
                    self.tag_filter_view(),
                    self.filter@,
                    matches_view(*glob_matches),
                    strings_view(lowered_paths@),
                    lowered_filter@,
                ),
            decreases self.files@.len() - i,
        {
            let f = &self.files[i];
            let tag_pass = match &tag_filter {
                crate::discover_state::DiscoverTagFilter::All => true,
                crate::discover_state::DiscoverTagFilter::Untagged => f.tags.len() == 0,
                crate::discover_state::DiscoverTagFilter::Tag(t) => tags_contain(&f.tags, t.as_str()),
            };
            let text_pass = if !has_filter {
                true
            } else if is_glob {
                match glob_matches {
                    Some(m) => m[i],
                    None => true,
                }
            } else {
                let hay = str_chars(lowered_paths[i].as_str());
                chars_contains(hay.as_slice(), needle.as_slice())
            };
            if tag_pass && text_pass {
                out.push(i);
            }
            i += 1;
        }
        out
    }

    /// Positions of the files shown (see `visible_file_indices`), the paths
    /// and filter text lowered here.
    pub fn filtered_file_indices(&self, glob_matches: &Option<Vec<bool>>) -> (r: Vec<usize>)
        requires
            glob_matches matches Some(m) ==> m@.len() == self.files@.len(),
        ensures
            exists|lowered: Seq<Seq<char>>|
                lowered.len() == self.files@.len() && (forall|k: int|
                    0 <= k < lowered.len() ==> #[trigger] lowered[k] == unicode_lower(
                        self.files@[k].rel_path@,
                    )) && r@ == shown_indices(
                    self.files@,
                    self.files@.len(),
                    self.tag_filter_view(),
                    self.filter@,
                    matches_view(*glob_matches),
                    lowered,
                    unicode_lower(trim_seq(self.filter@)),
                ),
    {
        let mut lowered: Vec<String> = Vec::new();
        let mut i: usize = 0;
        while i < self.files.len()
            invariant
                i <= self.files@.len(),
                lowered@.len() == i,
                forall|k: int|
                    0 <= k < i ==> #[trigger] lowered@[k]@ == unicode_lower(self.files@[k].rel_path@),
            decreases self.files@.len() - i,
        {
            lowered.push(to_lowercase(self.files[i].rel_path.as_str()));
            i += 1;
        }
        let chars = str_chars(self.filter.as_str());
        let trimmed = crate::text::string_from_chars(trim_chars(chars.as_slice()).as_slice());
        let lowered_filter = to_lowercase(trimmed.as_str());
        let r = self.visible_file_indices(glob_matches, &lowered, lowered_filter.as_str());
        proof {
            let lv = strings_view(lowered@);
            assert forall|k: int| 0 <= k < lv.len() implies #[trigger] lv[k] == unicode_lower(
                self.files@[k].rel_path@,
            ) by {
                assert(lv[k] == lowered@[k]@);
            }
        }
        r
    }

    /// Sets the tag list to "All files" alone, with no count, and forgets
    /// the known tags.
    pub fn reset_tags(&mut self)
        ensures
            final(self).tags@.len() == 1,
            final(self).tags@[0].name@ == "All files"@,
            final(self).tags@[0].count == 0,
            final(self).tags@[0].is_special,
            final(self).available_tags@.len() == 0,
            *final(self) == (DiscoverState {
                tags: final(self).tags,
                available_tags: final(self).available_tags,
                ..*old(self)
            }),
    {
        self.tags = vec![TagInfo { name: owned("All files"), count: 0, is_special: true }];
        self.available_tags = Vec::new();
    }
}

/// "File already has tag '{tag}'"
pub open spec fn already_tagged_message(tag: Seq<char>) -> Seq<char> {
    "File already has tag '"@ + tag + "'"@
}

/// "Tagged '{name}' with '{tag}'"
pub open spec fn file_tagged_message(name: Seq<char>, tag: Seq<char>) -> Seq<char> {
    "Tagged '"@ + name + "' with '"@ + tag + "'"@
}

/// `i` is the first file with this id.
pub open spec fn first_file(files: Seq<FileInfo>, id: i64, i: int) -> bool {
    &&& 0 <= i < files.len()
    &&& files[i].file_id == id
    &&& forall|k: int| 0 <= k < i ==> files[k].file_id != id
}

pub open spec fn has_file(files: Seq<FileInfo>, id: i64) -> bool {
    exists|i: int| 0 <= i < files.len() && files[i].file_id == id
}

/// Position of the first file with this id.
pub open spec fn file_index(files: Seq<FileInfo>, id: i64) -> int {
    choose|i: int| first_file(files, id, i)
}

/// The first file with this id has the tag already.
pub open spec fn tagged_already(files: Seq<FileInfo>, id: i64, tag: Seq<char>) -> bool {
    has_file(files, id) && strings_view(files[file_index(files, id)].tags@).contains(tag)
}

/// The name a tagging message gives a file: its path, or "file {id}" when
/// it is not on the page.
pub open spec fn tagged_file_name(files: Seq<FileInfo>, id: i64) -> Seq<char> {
    if has_file(files, id) {
        files[file_index(files, id)].rel_path@
    } else {
        "file "@ + crate::text::decimal_int(id as int)
    }
}

/// `new` is `old` with a tag given to a file and its write queued: the
/// first file with the id gets the tag (the others are unchanged), the
/// write is queued, the tag joins the known tags, and, when asked, the
/// status names the file.
pub open spec fn tag_queued(
    old: DiscoverState,
    new: DiscoverState,
    file_id: i64,
    tag: Seq<char>,
    workspace_id: u128,
    tag_source: TagSource,
    rule_id: Option<u128>,
    show_message: bool,
) -> bool {
    let files = old.files@;
    let found = has_file(files, file_id);
    let i = file_index(files, file_id);
    &&& new.files@.len() == files.len()
    &&& (found ==> strings_view(new.files@[i].tags@) == strings_view(files[i].tags@).push(tag) && (
    FileInfo { tags: new.files@[i].tags, ..files[i] }) == new.files@[i])
    &&& forall|k: int| 0 <= k < files.len() && !(found && k == i) ==> new.files@[k] == files[k]
    &&& new.pending_tag_writes@.len() == old.pending_tag_writes@.len() + 1
    &&& new.pending_tag_writes@.drop_last() == old.pending_tag_writes@
    &&& new.pending_tag_writes@.last().file_id == file_id
    &&& new.pending_tag_writes@.last().tag@ == tag
    &&& new.pending_tag_writes@.last().workspace_id == workspace_id
    &&& new.pending_tag_writes@.last().tag_source == tag_source
    &&& new.pending_tag_writes@.last().rule_id == rule_id
    &&& (strings_view(old.available_tags@).contains(tag) ==> new.available_tags
        == old.available_tags)
    &&& (!strings_view(old.available_tags@).contains(tag) ==> strings_view(new.available_tags@)
        == strings_view(old.available_tags@).push(tag))
    &&& (if show_message {
        new.status_message matches Some((m, false)) && m@ == file_tagged_message(
            tagged_file_name(files, file_id),
            tag,
        )
    } else {
        new.status_message == old.status_message
    })
    &&& new == (DiscoverState {
        files: new.files,
        pending_tag_writes: new.pending_tag_writes,
        available_tags: new.available_tags,
        status_message: new.status_message,
        ..old
    })
}

fn find_file(files: &Vec<FileInfo>, id: i64) -> (r: Option<usize>)
    ensures
        match r {
            Some(i) => first_file(files@, id, i as int) && i as int == file_index(files@, id),
            None => !has_file(files@, id),
        },
{
    let mut i: usize = 0;
    while i < files.len()
        invariant
            i <= files@.len(),
            forall|k: int| 0 <= k < i ==> files@[k].file_id != id,
        decreases files@.len() - i,
    {
        if files[i].file_id == id {
            proof {
                assert(first_file(files@, id, i as int));
                let c = choose|c: int| first_file(files@, id, c);
                assert(c == i);
            }
            return Some(i);
        }
        i += 1;
    }
    proof {
        if has_file(files@, id) {
            let j = choose|j: int| 0 <= j < files@.len() && files@[j].file_id == id;
            assert(files@[j].file_id != id);
        }
    }
    None
}

impl DiscoverState {
    fn push_known_tag(&mut self, tag: &str)
        ensures
            strings_view(old(self).available_tags@).contains(tag@) ==> final(self).available_tags
                == old(self).available_tags,
            !strings_view(old(self).available_tags@).contains(tag@) ==> strings_view(
                final(self).available_tags@,
            ) == strings_view(old(self).available_tags@).push(tag@),
            *final(self) == (DiscoverState { available_tags: final(self).available_tags, ..*old(self) }),
    {
        if !tags_contain(&self.available_tags, tag) {
            let ghost known = strings_view(self.available_tags@);
            self.available_tags.push(owned(tag));
            proof {
                assert(strings_view(self.available_tags@) =~= known.push(tag@));
            }
        }
    }

    /// Tagging once the write is allowed: a file that has the tag already is
    /// left alone (`false`, with a message when asked); otherwise see
    /// `tag_queued`.
    fn queue_allowed_tag(
        &mut self,
        workspace_id: u128,
        file_id: i64,
        tag: &str,
        tag_source: TagSource,
        rule_id: Option<u128>,
        show_message: bool,
    ) -> (r: bool)
        ensures
            r == !tagged_already(old(self).files@, file_id, tag@),
            !r ==> (if show_message {
                final(self).status_message matches Some((m, true)) && m@ == already_tagged_message(
                    tag@,
                )
            } else {
                final(self).status_message == old(self).status_message
            }) && *final(self) == (DiscoverState {
                status_message: final(self).status_message,
                ..*old(self)
            }),
            r ==> tag_queued(
                *old(self),
                *final(self),
                file_id,
                tag@,
                workspace_id,
                tag_source,
                rule_id,
                show_message,
            ),
    {
        let found = find_file(&self.files, file_id);
        let mut name: Option<String> = None;
        if let Some(i) = found {
            if tags_contain(&self.files[i].tags, tag) {
                if show_message {
                    let mut m = owned("File already has tag '");
                    push_str(&mut m, tag);
                    push_str(&mut m, "'");
                    self.status_message = Some((m, true));
                }
                return false;
            }
            name = Some(owned(self.files[i].rel_path.as_str()));
            let ghost before = strings_view(self.files@[i as int].tags@);
            self.files[i].tags.push(owned(tag));
            proof {
                assert(strings_view(self.files@[i as int].tags@) =~= before.push(tag@));
            }
        }
        let ghost writes = self.pending_tag_writes@;
        self.pending_tag_writes.push(
            PendingTagWrite { file_id, tag: owned(tag), workspace_id, tag_source, rule_id },
        );
        proof {
            assert(self.pending_tag_writes@.drop_last() =~= writes);
        }
        if show_message {
            let shown = match name {
                Some(n) => n,
                None => {
                    let mut n = owned("file ");
                    let d = i64_to_decimal(file_id);
                    push_str(&mut n, d.as_str());
                    n
                },
            };
            let mut m = owned("Tagged '");
            push_str(&mut m, shown.as_str());
            push_str(&mut m, "' with '");
            push_str(&mut m, tag);
            push_str(&mut m, "'");
            self.status_message = Some((m, false));
        }
        self.push_known_tag(tag);
        true
    }

    /// Tags a file of the page and queues the write. Refused, with a
    /// message, when writes are blocked (also shown as the scan error),
    /// without a workspace, or for a rule's tag without the rule. Otherwise
    /// a file that has the tag already is left alone (with a message when
    /// asked), and any other is tagged as `tag_queued` says.
    pub fn queue_tag_for_file(
        &mut self,
        router: &BackendRouter,
        control_connected: bool,
        workspace_id: Option<u128>,
        file_id: i64,
        tag: &str,
        tag_source: TagSource,
        rule_id: Option<u128>,
        show_message: bool,
    ) -> (r: bool)
        ensures
            router.blocked_spec(control_connected) ==> !r && (final(self).scan_error matches Some(
                m,
            ) && m@ == router.blocked_text("apply tags"@)) && (final(self).status_message matches Some(
                (m, true),
            ) && m@ == router.blocked_text("apply tags"@)) && *final(self) == (DiscoverState {
                scan_error: final(self).scan_error,
                status_message: final(self).status_message,
                ..*old(self)
            }),
            !router.blocked_spec(control_connected) && workspace_id is None ==> !r && (final(self).status_message matches Some((m, true)) && m@
                == "No workspace selected; cannot apply tags"@) && *final(self) == (DiscoverState {
                status_message: final(self).status_message,
                ..*old(self)
            }),
            !router.blocked_spec(control_connected) && workspace_id is Some && tag_source
                == TagSource::Rule && rule_id is None ==> !r && (final(self).status_message matches Some(
                (m, true),
            ) && m@ == "Rule-based tag write missing rule ID"@) && *final(self) == (DiscoverState {
                status_message: final(self).status_message,
                ..*old(self)
            }),
            !router.blocked_spec(control_connected) && workspace_id is Some && !(tag_source
                == TagSource::Rule && rule_id is None) ==> r == !tagged_already(
                old(self).files@,
                file_id,
                tag@,
            ) && (!r ==> (if show_message {
                final(self).status_message matches Some((m, true)) && m@ == already_tagged_message(
                    tag@,
                )
            } else {
                final(self).status_message == old(self).status_message
            }) && *final(self) == (DiscoverState {
                status_message: final(self).status_message,
                ..*old(self)
            })) && (r ==> tag_queued(
                *old(self),
                *final(self),
                file_id,
                tag@,
                workspace_id->0,
                tag_source,
                rule_id,
                show_message,
            )),
    {
        if router.mutations_blocked(control_connected) {
            let message = router.blocked_message("apply tags");
            self.scan_error = Some(owned(message.as_str()));
            self.status_message = Some((message, true));
            return false;
        }
        let ws = match workspace_id {
            Some(id) => id,
            None => {
                self.status_message = Some(
                    (owned("No workspace selected; cannot apply tags"), true),
                );
                return false;
            },
        };
        if tag_source == TagSource::Rule && rule_id.is_none() {
            self.status_message = Some((owned("Rule-based tag write missing rule ID"), true));
            return false;
        }
        self.queue_allowed_tag(ws, file_id, tag, tag_source, rule_id, show_message)
    }
}

/// The entries with a positive count, in order.
pub open spec fn kept_counts(s: Seq<(String, i64)>) -> Seq<(String, i64)>
    decreases s.len(),
{
    if s.len() == 0 {
        s
    } else if s.last().1 > 0 {
        kept_counts(s.drop_last()).push(s.last())
    } else {
        kept_counts(s.drop_last())
    }
}

/// The names of some entries.
pub open spec fn count_names(s: Seq<(String, i64)>) -> Seq<Seq<char>> {
    s.map_values(|e: (String, i64)| e.0@)
}

/// The tag list from the store's counts: "All files" with the file count
/// (0 when negative), then each tag with files, in order, then "untagged"
/// when some files have no tag; and the names of the tags with files.
pub fn tag_list_from_counts(total_files: i64, counts: &Vec<(String, i64)>, untagged_files: i64) -> (r: (
    Vec<TagInfo>,
    Vec<String>,
))
    requires
        counts@.len() < usize::MAX - 2,
    ensures
        r.0@.len() >= 1,
        r.0@[0].name@ == "All files"@,
        r.0@[0].count == (if total_files > 0 {
            total_files as usize
        } else {
            0usize
        }),
        r.0@[0].is_special,
        strings_view(r.1@) == count_names(kept_counts(counts@)),
        r.0@.len() == 1 + kept_counts(counts@).len() + (if untagged_files > 0 {
            1int
        } else {
            0
        }),
        forall|k: int|
            0 <= k < kept_counts(counts@).len() ==> #[trigger] r.0@[k + 1].name@ == kept_counts(
                counts@,
            )[k].0@ && r.0@[k + 1].count == kept_counts(counts@)[k].1 as usize && !r.0@[k
                + 1].is_special,
        untagged_files > 0 ==> r.0@.last().name@ == "untagged"@ && r.0@.last().count
            == untagged_files as usize && r.0@.last().is_special,
{
    let total: usize = if total_files > 0 {
        total_files as usize
    } else {
        0
    };
    let mut tags: Vec<TagInfo> = vec![TagInfo { name: owned("All files"), count: total, is_special: true }];
    let mut names: Vec<String> = Vec::new();
    let mut i: usize = 0;
    proof {
        assert(counts@.subrange(0, 0) =~= Seq::<(String, i64)>::empty());
        assert(strings_view(names@) =~= count_names(kept_counts(counts@.subrange(0, 0))));
    }
    while i < counts.len()
        invariant
            i <= counts@.len(),
            counts@.len() < usize::MAX - 2,
            tags@.len() >= 1,
            tags@[0].name@ == "All files"@,
            tags@[0].count == total,
            tags@[0].is_special,
            strings_view(names@) == count_names(kept_counts(counts@.subrange(0, i as int))),
            tags@.len() == 1 + kept_counts(counts@.subrange(0, i as int)).len(),
            kept_counts(counts@.subrange(0, i as int)).len() <= i,
            forall|k: int|
                0 <= k < kept_counts(counts@.subrange(0, i as int)).len() ==> #[trigger] tags@[k
                    + 1].name@ == kept_counts(counts@.subrange(0, i as int))[k].0@ && tags@[k
                    + 1].count == kept_counts(counts@.subrange(0, i as int))[k].1 as usize
                    && !tags@[k + 1].is_special,
        decreases counts@.len() - i,
    {
        let ghost prev = counts@.subrange(0, i as int);
        let ghost next = counts@.subrange(0, i + 1);
        proof {
            assert(next.drop_last() =~= prev);
            assert(next.last() == counts@[i as int]);
        }
        let tag = &counts[i].0;
        let count = counts[i].1;
        if count > 0 {
            let ghost nv = strings_view(names@);
            names.push(owned(tag.as_str()));
            tags.push(TagInfo { name: owned(tag.as_str()), count: count as usize, is_special: false });
            proof {
                assert(kept_counts(next) == kept_counts(prev).push(counts@[i as int]));
                assert(strings_view(names@) =~= nv.push(tag@));
                assert(count_names(kept_counts(next)) =~= count_names(kept_counts(prev)).push(tag@));
            }
        } else {
            proof {
                assert(kept_counts(next) == kept_counts(prev));
            }
        }
        i += 1;
    }
    proof {
        assert(counts@.subrange(0, counts@.len() as int) =~= counts@);
    }
    if untagged_files > 0 {
        tags.push(TagInfo { name: owned("untagged"), count: untagged_files as usize, is_special: true });
    }
    (tags, names)
}

} // verus!

//! State of the Discover screen and its source selection. The selection is
//! kept by source id, so that it survives reloads of the source list; the
//! functions here find it again, move it, and repair it when the list
//! changes.
use vstd::prelude::*;
use crate::discover::{
    DiscoverFocus, DiscoverViewState, PendingRuleDelete, PendingRuleUpdate, PendingRuleWrite,
    PendingSourceCreate, PendingSourceDelete, PendingSourceUpdate, PendingTagWrite, RuleDialogFocus, RuleId, RuleInfo,
    ScanProgress, SourceInfo, TagInfo,
};
use crate::rule_builder::RuleBuilderState;
use crate::tabs::{after_return, after_transition};
use crate::text::{owned, push_str, str_chars, str_eq, string_from_chars};

verus! {

/// A file of the Discover list; modified time in milliseconds since the Unix
/// epoch.
#[derive(Debug, Clone)]
pub struct FileInfo {
    pub file_id: i64,
    pub path: String,
    /// Path relative to the source root, for display
    pub rel_path: String,
    pub size: u64,
    pub modified: i64,
    pub is_dir: bool,
    pub tags: Vec<String>,
}

/// State of the Discover screen. Sources are selected by id.
#[derive(Debug, Clone)]
pub struct DiscoverState {
    pub view_state: DiscoverViewState,
    pub previous_view_state: Option<DiscoverViewState>,
    pub files: Vec<FileInfo>,
    pub selected: usize,
    /// Row offset of the current page in the full result set
    pub page_offset: usize,
    pub page_size: usize,
    /// Files matching the current filters
    pub total_files: usize,
    pub filter: String,
    /// Whether the store already applied the tag and text filters
    pub db_filtered: bool,
    pub preview_open: bool,
    pub scan_path_input: String,
    /// Path awaiting confirmation for a risky scan
    pub scan_confirm_path: Option<String>,
    pub scan_error: Option<String>,
    pub data_loaded: bool,
    pub tag_input: String,
    pub available_tags: Vec<String>,
    /// Message and whether it is an error
    pub status_message: Option<(String, bool)>,
    pub source_name_input: String,
    pub pending_source_path: Option<String>,
    /// Source path to select once the sources are reloaded
    pub pending_select_source_path: Option<String>,
    pub bulk_tag_input: String,
    pub bulk_tag_save_as_rule: bool,
    pub focus: DiscoverFocus,
    pub sources: Vec<SourceInfo>,
    /// Selected source, by id
    pub selected_source_id: Option<i64>,
    pub sources_loaded: bool,
    pub tags: Vec<TagInfo>,
    /// Selected tag (`None`: all files)
    pub selected_tag: Option<usize>,
    pub tags_filter: String,
    pub tags_filtering: bool,
    pub preview_tag: Option<usize>,
    pub sources_filter: String,
    pub sources_filtering: bool,
    pub preview_source: Option<usize>,
    pub rules: Vec<RuleInfo>,
    pub selected_rule: usize,
    pub rule_tag_input: String,
    pub rule_pattern_input: String,
    /// Rule being edited (`None`: a new rule)
    pub editing_rule_id: Option<RuleId>,
    pub rule_dialog_focus: RuleDialogFocus,
    pub rule_preview_files: Vec<String>,
    pub rule_preview_count: usize,
    pub rule_builder: Option<RuleBuilderState>,
    pub inspector_defaulted: bool,
    pub sources_manager_selected: usize,
    pub source_edit_input: String,
    pub editing_source: Option<i64>,
    pub source_to_delete: Option<i64>,
    pub pending_tag_writes: Vec<PendingTagWrite>,
    pub pending_rule_writes: Vec<PendingRuleWrite>,
    pub pending_rule_updates: Vec<PendingRuleUpdate>,
    pub pending_rule_deletes: Vec<PendingRuleDelete>,
    pub pending_source_creates: Vec<PendingSourceCreate>,
    pub pending_source_updates: Vec<PendingSourceUpdate>,
    pub pending_source_deletes: Vec<PendingSourceDelete>,
    /// Source to mark as most recently used
    pub pending_source_touch: Option<i64>,
    pub scanning_path: Option<String>,
    pub scan_progress: Option<ScanProgress>,
    pub scan_start_time: Option<std::time::Instant>,
    pub path_suggestions: Vec<String>,
    pub path_suggestion_idx: usize,
}

impl Default for DiscoverState {
    /// The file list with nothing loaded, selected or pending.
    fn default() -> (r: Self)
        ensures
            r.view_state == DiscoverViewState::Files,
            r.previous_view_state is None,
            r.focus == DiscoverFocus::Files,
            r.files@.len() == 0,
            r.selected == 0,
            r.page_offset == 0,
            r.page_size == 0,
            r.total_files == 0,
            r.sources@.len() == 0,
            r.selected_source_id is None,
            !r.sources_loaded,
            !r.data_loaded,
            r.tags@.len() == 0,
            r.selected_tag is None,
            r.rules@.len() == 0,
            r.rule_dialog_focus == RuleDialogFocus::Pattern,
            r.rule_builder is None,
            r.pending_tag_writes@.len() == 0,
            r.pending_rule_writes@.len() == 0,
            r.pending_rule_updates@.len() == 0,
            r.pending_rule_deletes@.len() == 0,
            r.pending_source_creates@.len() == 0,
            r.pending_source_updates@.len() == 0,
            r.pending_source_deletes@.len() == 0,
            r.scan_progress is None,
            r.scan_start_time is None,
    {
        DiscoverState {
            view_state: DiscoverViewState::Files,
            previous_view_state: None,
            files: Vec::new(),
            selected: 0,
            page_offset: 0,
            page_size: 0,
            total_files: 0,
            filter: String::new(),
            db_filtered: false,
            preview_open: false,
            scan_path_input: String::new(),
            scan_confirm_path: None,
            scan_error: None,
            data_loaded: false,
            tag_input: String::new(),
            available_tags: Vec::new(),
            status_message: None,
            source_name_input: String::new(),
            pending_source_path: None,
            pending_select_source_path: None,
            bulk_tag_input: String::new(),
            bulk_tag_save_as_rule: false,
            focus: DiscoverFocus::Files,
            sources: Vec::new(),
            selected_source_id: None,
            sources_loaded: false,
            tags: Vec::new(),
            selected_tag: None,
            tags_filter: String::new(),
            tags_filtering: false,
            preview_tag: None,
            sources_filter: String::new(),
            sources_filtering: false,
            preview_source: None,
            rules: Vec::new(),
            selected_rule: 0,
            rule_tag_input: String::new(),
            rule_pattern_input: String::new(),
            editing_rule_id: None,
            rule_dialog_focus: RuleDialogFocus::Pattern,
            rule_preview_files: Vec::new(),
            rule_preview_count: 0,
            rule_builder: None,
            inspector_defaulted: false,
            sources_manager_selected: 0,
            source_edit_input: String::new(),
            editing_source: None,
            source_to_delete: None,
            pending_tag_writes: Vec::new(),
            pending_rule_writes: Vec::new(),
            pending_rule_updates: Vec::new(),
            pending_rule_deletes: Vec::new(),
            pending_source_creates: Vec::new(),
            pending_source_updates: Vec::new(),
            pending_source_deletes: Vec::new(),
            pending_source_touch: None,
            scanning_path: None,
            scan_progress: None,
            scan_start_time: None,
            path_suggestions: Vec::new(),
            path_suggestion_idx: 0,
        }
    }
}

/// The ids of a list of sources.
pub open spec fn source_ids(sources: Seq<SourceInfo>) -> Seq<i64> {
    sources.map_values(|s: SourceInfo| s.id)
}

/// `i` is the first position of `id` in `ids`.
pub open spec fn first_position(ids: Seq<i64>, id: i64, i: int) -> bool {
    &&& 0 <= i < ids.len()
    &&& ids[i] == id
    &&& forall|k: int| 0 <= k < i ==> ids[k] != id
}

/// Two first positions of an id are the same position.
pub proof fn lemma_first_position_unique(ids: Seq<i64>, id: i64, i: int, j: int)
    requires
        first_position(ids, id, i),
        first_position(ids, id, j),
    ensures
        i == j,
{
}

/// Position of the selection in a list of ids: the first position of the
/// selected id, or 0 when nothing is selected or the id is not listed.
pub open spec fn selected_index(ids: Seq<i64>, selected: Option<i64>) -> int {
    match selected {
        Some(id) => if ids.contains(id) {
            choose|i: int| first_position(ids, id, i)
        } else {
            0
        },
        None => 0,
    }
}

/// The selection names a source of the list.
pub open spec fn selection_valid(ids: Seq<i64>, selected: Option<i64>) -> bool {
    match selected {
        Some(id) => ids.contains(id),
        None => false,
    }
}

/// The selection after a repair: none for an empty list, kept when it names
/// a source, else the first source.
pub open spec fn repaired_selection(ids: Seq<i64>, selected: Option<i64>) -> Option<i64> {
    if ids.len() == 0 {
        None
    } else if selection_valid(ids, selected) {
        selected
    } else {
        Some(ids[0])
    }
}

pub(crate) fn find_source(sources: &Vec<SourceInfo>, id: i64) -> (r: Option<usize>)
    ensures
        match r {
            Some(i) => first_position(source_ids(sources@), id, i as int),
            None => !source_ids(sources@).contains(id),
        },
{
    let ghost ids = source_ids(sources@);
    let mut i: usize = 0;
    while i < sources.len()
        invariant
            i <= sources@.len(),
            ids == source_ids(sources@),
            forall|k: int| 0 <= k < i ==> ids[k] != id,
        decreases sources@.len() - i,
    {
        if sources[i].id == id {
            return Some(i);
        }
        i += 1;
    }
    proof {
        if ids.contains(id) {
            let k = choose|k: int| 0 <= k < ids.len() && ids[k] == id;
            assert(ids[k] != id);
        }
    }
    None
}

impl DiscoverState {
    /// The same state with another selected source.
    pub open spec fn with_selection(self, selected: Option<i64>) -> DiscoverState {
        DiscoverState { selected_source_id: selected, ..self }
    }

    /// Position of the selected source: the first source with the selected
    /// id, or 0 when nothing is selected or the id is not in the list.
    pub fn selected_source_index(&self) -> (r: usize)
        ensures
            r == selected_index(source_ids(self.sources@), self.selected_source_id),
    {
        match self.selected_source_id {
            Some(id) => match find_source(&self.sources, id) {
                Some(i) => {
                    proof {
                        let ids = source_ids(self.sources@);
                        assert(ids.contains(id));
                        let c = choose|k: int| first_position(ids, id, k);
                        lemma_first_position_unique(ids, id, i as int, c);
                    }
                    i
                },
                None => 0,
            },
            None => 0,
        }
    }

    /// Selects the source at a position; a position past the end clears the
    /// selection.
    pub fn select_source_by_index(&mut self, idx: usize)
        ensures
            *final(self) == old(self).with_selection(
                if idx < old(self).sources@.len() {
                    Some(old(self).sources@[idx as int].id)
                } else {
                    None
                },
            ),
    {
        self.selected_source_id = if idx < self.sources.len() {
            Some(self.sources[idx].id)
        } else {
            None
        };
    }

    /// The selected source: the first with the selected id, if any.
    pub fn selected_source(&self) -> (r: Option<&SourceInfo>)
        ensures
            match self.selected_source_id {
                Some(id) => if source_ids(self.sources@).contains(id) {
                    exists|i: int|
                        first_position(source_ids(self.sources@), id, i) && r == Some(
                            &self.sources@[i],
                        )
                } else {
                    r is None
                },
                None => r is None,
            },
    {
        match self.selected_source_id {
            Some(id) => match find_source(&self.sources, id) {
                Some(i) => {
                    proof {
                        assert(first_position(source_ids(self.sources@), id, i as int));
                    }
                    Some(&self.sources[i])
                },
                None => None,
            },
            None => None,
        }
    }

    /// Repairs the selection after the source list changed: none for an
    /// empty list, the first source when the selection is missing or names
    /// no listed source, else unchanged.
    pub fn validate_source_selection(&mut self)
        ensures
            *final(self) == old(self).with_selection(
                repaired_selection(source_ids(old(self).sources@), old(self).selected_source_id),
            ),
    {
        if self.sources.len() == 0 {
            self.selected_source_id = None;
        } else {
            let found = match self.selected_source_id {
                Some(id) => find_source(&self.sources, id).is_some(),
                None => false,
            };
            if !found {
                proof {
                    assert(source_ids(self.sources@)[0] == self.sources@[0].id);
                }
                self.selected_source_id = Some(self.sources[0].id);
            }
        }
    }
}

/// Length of a page: the page size, at least one.
pub open spec fn page_step(page_size: usize) -> nat {
    if page_size >= 1 {
        page_size as nat
    } else {
        1
    }
}

/// Offset of the last page of `total` files.
pub open spec fn last_offset(total: nat, page_size: usize) -> nat {
    if total == 0 {
        0
    } else {
        (((total - 1) as int / page_step(page_size) as int) * page_step(page_size) as int) as nat
    }
}

fn last_offset_exec(total: usize, page_size: usize) -> (r: usize)
    requires
        total > 0,
    ensures
        r == last_offset(total as nat, page_size),
        r <= total - 1,
{
    let size: usize = if page_size >= 1 {
        page_size
    } else {
        1
    };
    let pages = (total - 1) / size;
    proof {
        assert((pages as int) * (size as int) <= total as int - 1) by (nonlinear_arith)
            requires
                pages as int == (total as int - 1) / (size as int),
                size >= 1,
        ;
    }
    pages * size
}

/// Which files the tag filter shows.
#[derive(Debug, Clone, PartialEq, Eq)]
pub enum DiscoverTagFilter {
    All,
    Untagged,
    Tag(String),
}

/// A tag filter as text.
pub enum TagFilterView {
    All,
    Untagged,
    Tag(Seq<char>),
}

impl DiscoverTagFilter {
    pub open spec fn view(&self) -> TagFilterView {
        match self {
            DiscoverTagFilter::All => TagFilterView::All,
            DiscoverTagFilter::Untagged => TagFilterView::Untagged,
            DiscoverTagFilter::Tag(t) => TagFilterView::Tag(t@),
        }
    }
}

/// The tag filter for a tag of the list: the special "All files" and
/// "untagged" entries, else the tag itself; no tag (or one past the list)
/// shows all files.
pub open spec fn tag_filter_for(tags: Seq<TagInfo>, idx: Option<usize>) -> TagFilterView {
    match idx {
        None => TagFilterView::All,
        Some(i) => if i < tags.len() {
            let name = tags[i as int].name@;
            if name == "All files"@ {
                TagFilterView::All
            } else if name == "untagged"@ {
                TagFilterView::Untagged
            } else {
                TagFilterView::Tag(name)
            }
        } else {
            TagFilterView::All
        },
    }
}

/// Whether a character separates path components (`/` or `\`).
pub open spec fn is_separator(c: char) -> bool {
    c == '/' || c == '\\'
}

/// The directory part of typed path text: all of it when it ends with a
/// separator, else up to and including its last separator, else nothing.
pub open spec fn path_parent(input: Seq<char>) -> Seq<char> {
    if exists|i: int| 0 <= i < input.len() && is_separator(input[i]) {
        let last = choose|i: int|
            0 <= i < input.len() && is_separator(input[i]) && forall|j: int|
                i < j < input.len() ==> !is_separator(input[j]);
        input.subrange(0, last + 1)
    } else {
        Seq::empty()
    }
}

impl DiscoverState {
    /// The first and last row shown (counting from 1) and the total; all 0
    /// but the total when nothing is shown.
    pub fn page_bounds(&self) -> (r: (usize, usize, usize))
        requires
            self.page_offset + self.files@.len() <= usize::MAX,
        ensures
            self.total_files == 0 || self.files@.len() == 0 ==> r == (0usize, 0usize, self.total_files),
            self.total_files > 0 && self.files@.len() > 0 ==> r == (
                (self.page_offset + 1) as usize,
                if self.page_offset + self.files@.len() < self.total_files {
                    (self.page_offset + self.files@.len()) as usize
                } else {
                    self.total_files
                },
                self.total_files,
            ),
    {
        let total = self.total_files;
        if total == 0 || self.files.len() == 0 {
            return (0, 0, total);
        }
        let start = self.page_offset + 1;
        let end_raw = self.page_offset + self.files.len();
        let end = if end_raw < total {
            end_raw
        } else {
            total
        };
        (start, end, total)
    }

    /// Moves to a page: the first row is selected and the page is to be
    /// loaded, unfiltered.
    pub open spec fn at_offset(self, offset: usize) -> DiscoverState {
        DiscoverState { page_offset: offset, selected: 0, data_loaded: false, db_filtered: false, ..self }
    }

    fn set_page_offset(&mut self, offset: usize)
        ensures
            *final(self) == old(self).at_offset(offset),
    {
        self.page_offset = offset;
        self.selected = 0;
        self.data_loaded = false;
        self.db_filtered = false;
    }

    /// The next page, when there is one: one page on, but not past the
    /// last.
    pub fn next_page(&mut self)
        requires
            old(self).total_files > 0 && old(self).page_offset < last_offset(
                old(self).total_files as nat,
                old(self).page_size,
            ) ==> old(self).page_offset + page_step(old(self).page_size) <= usize::MAX,
        ensures
            ({
                let last = last_offset(old(self).total_files as nat, old(self).page_size);
                if old(self).total_files > 0 && old(self).page_offset < last {
                    let next = old(self).page_offset + page_step(old(self).page_size);
                    *final(self) == old(self).at_offset(
                        if next < last {
                            next as usize
                        } else {
                            last as usize
                        },
                    )
                } else {
                    *final(self) == *old(self)
                }
            }),
    {
        let total = self.total_files;
        if total == 0 {
            return;
        }
        let size: usize = if self.page_size >= 1 {
            self.page_size
        } else {
            1
        };
        let last = last_offset_exec(total, self.page_size);
        if self.page_offset < last {
            let next = self.page_offset + size;
            let target = if next < last {
                next
            } else {
                last
            };
            self.set_page_offset(target);
        }
    }

    /// The previous page: one page back, but not before the first.
    pub fn prev_page(&mut self)
        ensures
            ({
                let step = page_step(old(self).page_size);
                let prev = if old(self).page_offset >= step {
                    (old(self).page_offset - step) as usize
                } else {
                    0usize
                };
                if prev != old(self).page_offset {
                    *final(self) == old(self).at_offset(prev)
                } else {
                    *final(self) == *old(self)
                }
            }),
    {
        let size: usize = if self.page_size >= 1 {
            self.page_size
        } else {
            1
        };
        let prev = if self.page_offset >= size {
            self.page_offset - size
        } else {
            0
        };
        if prev != self.page_offset {
            self.set_page_offset(prev);
        }
    }

    /// The first page.
    pub fn first_page(&mut self)
        ensures
            old(self).page_offset != 0 ==> *final(self) == old(self).at_offset(0),
            old(self).page_offset == 0 ==> *final(self) == *old(self),
    {
        if self.page_offset != 0 {
            self.set_page_offset(0);
        }
    }

    /// The last page (nothing changes without files).
    pub fn last_page(&mut self)
        ensures
            ({
                let last = last_offset(old(self).total_files as nat, old(self).page_size);
                if old(self).total_files > 0 && old(self).page_offset != last {
                    *final(self) == old(self).at_offset(last as usize)
                } else {
                    *final(self) == *old(self)
                }
            }),
    {
        let total = self.total_files;
        if total == 0 {
            return;
        }
        let last = last_offset_exec(total, self.page_size);
        if self.page_offset != last {
            self.set_page_offset(last);
        }
    }

    /// The tag filter in force: the previewed tag while the tags dropdown
    /// is open, else the selected tag.
    pub fn active_tag_filter(&self) -> (r: DiscoverTagFilter)
        ensures
            ({
                let idx = if self.view_state == DiscoverViewState::TagsDropdown {
                    self.preview_tag
                } else {
                    self.selected_tag
                };
                r@ == tag_filter_for(self.tags@, idx)
            }),
    {
        let idx = if self.view_state == DiscoverViewState::TagsDropdown {
            self.preview_tag
        } else {
            self.selected_tag
        };
        match idx {
            None => DiscoverTagFilter::All,
            Some(i) => {
                if i < self.tags.len() {
                    let name = self.tags[i].name.as_str();
                    if str_eq(name, "All files") {
                        DiscoverTagFilter::All
                    } else if str_eq(name, "untagged") {
                        DiscoverTagFilter::Untagged
                    } else {
                        DiscoverTagFilter::Tag(owned(name))
                    }
                } else {
                    DiscoverTagFilter::All
                }
            },
        }
    }

    /// Puts the chosen path suggestion after the directory part of the
    /// typed path (`false`: no suggestion is chosen). The suggestions are to
    /// be refreshed for the new path.
    pub fn apply_path_suggestion(&mut self) -> (r: bool)
        ensures
            r == (old(self).path_suggestion_idx < old(self).path_suggestions@.len()),
            !r ==> *final(self) == *old(self),
            r ==> final(self).scan_path_input@ == path_parent(old(self).scan_path_input@)
                + old(self).path_suggestions@[old(self).path_suggestion_idx as int]@
                && *final(self) == (DiscoverState {
                scan_path_input: final(self).scan_path_input,
                ..*old(self)
            }),
    {
        if self.path_suggestion_idx >= self.path_suggestions.len() {
            return false;
        }
        let input = str_chars(self.scan_path_input.as_str());
        let mut e: usize = input.len();
        while e > 0 && !(input[e - 1] == '/' || input[e - 1] == '\\')
            invariant
                e <= input@.len(),
                forall|j: int| e <= j < input@.len() ==> !is_separator(input@[j]),
            decreases e,
        {
            e -= 1;
        }
        proof {
            let s = input@;
            if e > 0 {
                let last = (e - 1) as int;
                assert(is_separator(s[last]));
                let c = choose|i: int|
                    0 <= i < s.len() && is_separator(s[i]) && forall|j: int|
                        i < j < s.len() ==> !is_separator(s[j]);
                if c < last {
                    assert(!is_separator(s[last]));
                }
                if c > last {
                    assert(!is_separator(s[c]));
                }
            } else {
                if exists|i: int| 0 <= i < s.len() && is_separator(s[i]) {
                    let i = choose|i: int| 0 <= i < s.len() && is_separator(s[i]);
                    assert(!is_separator(s[i]));
                }
            }
        }
        let parent = crate::text::slice_chars(input.as_slice(), 0, e);
        let mut next = string_from_chars(parent.as_slice());
        push_str(&mut next, self.path_suggestions[self.path_suggestion_idx].as_str());
        proof {
            if e == 0 {
                assert(parent@ =~= Seq::<char>::empty());
            }
        }
        self.scan_path_input = next;
        true
    }
}

impl DiscoverState {
    /// Moves to a dialog or view, remembering the current one.
    pub fn transition_state(&mut self, new_state: DiscoverViewState)
        ensures
            (final(self).view_state, final(self).previous_view_state) == after_transition(
                old(self).view_state,
                new_state,
            ),
            *final(self) == (DiscoverState {
                view_state: final(self).view_state,
                previous_view_state: final(self).previous_view_state,
                ..*old(self)
            }),
    {
        self.previous_view_state = Some(self.view_state);
        self.view_state = new_state;
    }

    /// Goes back to the remembered view, or to the files view.
    pub fn return_to_previous_state(&mut self)
        ensures
            (final(self).view_state, final(self).previous_view_state) == after_return(
                old(self).view_state,
                old(self).previous_view_state,
                DiscoverViewState::Files,
            ),
            *final(self) == (DiscoverState {
                view_state: final(self).view_state,
                previous_view_state: final(self).previous_view_state,
                ..*old(self)
            }),
    {
        match self.previous_view_state.take() {
            Some(prev) => {
                self.view_state = prev;
            },
            None => {
                self.view_state = DiscoverViewState::Files;
            },
        }
    }

    /// The panel shortcuts: `S` opens the sources dropdown, unfiltered,
    /// previewing the selected source's position; `T` opens the tags
    /// dropdown, unfiltered, previewing the selected tag; other keys do
    /// nothing.
    pub fn panel_shortcut(&mut self, key: char)
        ensures
            key == 'S' ==> (final(self).view_state, final(self).previous_view_state)
                == after_transition(old(self).view_state, DiscoverViewState::SourcesDropdown)
                && final(self).sources_filter@ == Seq::<char>::empty()
                && !final(self).sources_filtering && final(self).preview_source == Some(
                selected_index(source_ids(old(self).sources@), old(self).selected_source_id)
                    as usize,
            ) && *final(self) == (DiscoverState {
                view_state: final(self).view_state,
                previous_view_state: final(self).previous_view_state,
                sources_filter: final(self).sources_filter,
                sources_filtering: false,
                preview_source: final(self).preview_source,
                ..*old(self)
            }),
            key == 'T' ==> (final(self).view_state, final(self).previous_view_state)
                == after_transition(old(self).view_state, DiscoverViewState::TagsDropdown)
                && final(self).tags_filter@ == Seq::<char>::empty() && *final(self) == (
            DiscoverState {
                view_state: final(self).view_state,
                previous_view_state: final(self).previous_view_state,
                tags_filter: final(self).tags_filter,
                tags_filtering: false,
                preview_tag: old(self).selected_tag,
                ..*old(self)
            }),
            key != 'S' && key != 'T' ==> *final(self) == *old(self),
    {
        if key == 'S' {
            self.transition_state(DiscoverViewState::SourcesDropdown);
            self.sources_filter = String::new();
            self.sources_filtering = false;
            self.preview_source = Some(self.selected_source_index());
        } else if key == 'T' {
            self.transition_state(DiscoverViewState::TagsDropdown);
            self.tags_filter = String::new();
            self.tags_filtering = false;
            self.preview_tag = self.selected_tag;
        }
    }

    /// Closes the rule dialog: back to the previous view, with its inputs,
    /// preview and edited rule cleared and the pattern focused.
    pub fn close_rule_dialog(&mut self)
        ensures
            (final(self).view_state, final(self).previous_view_state) == after_return(
                old(self).view_state,
                old(self).previous_view_state,
                DiscoverViewState::Files,
            ),
            final(self).rule_pattern_input@ == Seq::<char>::empty(),
            final(self).rule_tag_input@ == Seq::<char>::empty(),
            final(self).rule_preview_files@.len() == 0,
            *final(self) == (DiscoverState {
                view_state: final(self).view_state,
                previous_view_state: final(self).previous_view_state,
                rule_pattern_input: final(self).rule_pattern_input,
                rule_tag_input: final(self).rule_tag_input,
                rule_preview_files: final(self).rule_preview_files,
                rule_preview_count: 0,
                rule_dialog_focus: RuleDialogFocus::Pattern,
                editing_rule_id: None,
                ..*old(self)
            }),
    {
        self.return_to_previous_state();
        self.rule_pattern_input = String::new();
        self.rule_tag_input = String::new();
        self.rule_preview_files = Vec::new();
        self.rule_preview_count = 0;
        self.rule_dialog_focus = RuleDialogFocus::Pattern;
        self.editing_rule_id = None;
    }
}

/// After a repair of the selection, a non-empty source list has a selected
/// source that it lists, an empty one has none; a second repair changes
/// nothing.
pub proof fn law_repaired_selection_is_valid(ids: Seq<i64>, selected: Option<i64>)
    ensures
        ids.len() > 0 ==> selection_valid(ids, repaired_selection(ids, selected)),
        ids.len() == 0 ==> repaired_selection(ids, selected) is None,
        repaired_selection(ids, repaired_selection(ids, selected)) == repaired_selection(
            ids,
            selected,
        ),
{
    if ids.len() > 0 && !selection_valid(ids, selected) {
        assert(ids.contains(ids[0]));
    }
}

/// Selecting a listed source by position and then asking for the selected
/// position gives that position back when no earlier source has the same
/// id (always so when the ids are distinct).
pub proof fn law_select_then_index(state: DiscoverState, idx: int)
    requires
        0 <= idx < state.sources@.len(),
        forall|k: int| 0 <= k < idx ==> state.sources@[k].id != state.sources@[idx].id,
    ensures
        selected_index(
            source_ids(state.with_selection(Some(state.sources@[idx].id)).sources@),
            state.with_selection(Some(state.sources@[idx].id)).selected_source_id,
        ) == idx,
{
    let ids = source_ids(state.sources@);
    let id = state.sources@[idx].id;
    assert(ids[idx] == id);
    assert(ids.contains(id));
    assert(first_position(ids, id, idx));
    let c = choose|k: int| first_position(ids, id, k);
    lemma_first_position_unique(ids, id, idx, c);
}

/// Moving between pages keeps the offset at the start of a page and not
/// past the last page: from such an offset, the next, previous, first and
/// last pages start on a page too.
pub proof fn law_page_moves_stay_on_pages(offset: nat, total: nat, page_size: usize)
    requires
        total > 0,
        offset % page_step(page_size) == 0,
        offset <= last_offset(total, page_size),
    ensures
        ({
            let step = page_step(page_size);
            let last = last_offset(total, page_size);
            let next = if offset + step < last {
                offset + step
            } else {
                last
            };
            let prev = if offset >= step {
                (offset - step) as nat
            } else {
                0
            };
            &&& last % step == 0
            &&& last < total
            &&& next % step == 0 && next <= last
            &&& prev % step == 0 && prev <= last
        }),
{
    let step = page_step(page_size) as int;
    let q = (total - 1) as int / step;
    vstd::arithmetic::div_mod::lemma_mod_multiples_basic(q, step);
    assert(q * step <= total - 1) by (nonlinear_arith)
        requires
            q == (total - 1) as int / step,
            step >= 1,
            total >= 1,
    ;
    vstd::arithmetic::div_mod::lemma_fundamental_div_mod(offset as int, step);
    let k = offset as int / step;
    assert(offset as int == step * k);
    vstd::arithmetic::div_mod::lemma_mod_multiples_vanish(1, 0, step);
    vstd::arithmetic::div_mod::lemma_mod_multiples_basic(k + 1, step);
    assert((k + 1) * step == offset + step) by (nonlinear_arith)
        requires
            offset as int == step * k,
    ;
    if offset >= step {
        vstd::arithmetic::div_mod::lemma_mod_multiples_basic(k - 1, step);
        assert((k - 1) * step == offset - step) by (nonlinear_arith)
            requires
                offset as int == step * k,
        ;
    }
    vstd::arithmetic::div_mod::lemma_mod_multiples_basic(0, step);
}

} // verus!

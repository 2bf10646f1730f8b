//! State of the split-view Rule Builder: rule configuration on the left,
//! matched files and their test results on the right.
use vstd::prelude::*;
use crate::extraction::{BacktestSummary, ExtractionPreviewFile, FieldDraft, FieldSource, FieldType, FileResultsPhase, FileTestResult, FolderMatch, GlobProgress, ResultFilter, RuleDraft, result_passes_filter};
use crate::text::{chars_eq, str_chars, str_eq, strings_view};
use crate::uuid_text::{parse_uuid, uuid_hyphenated, uuid_parse, uuid_to_string};
use crate::glob_pattern::opt_string_view;

verus! {

/// Focus within the Rule Builder.
#[derive(Debug, Clone, PartialEq, Eq, Structural)]
pub enum RuleBuilderFocus {
    Pattern,
    Excludes,
    ExcludeInput,
    Tag,
    Extractions,
    ExtractionEdit(usize),
    Options,
    FileList,
    IgnorePicker,
}

/// Analysis state for AI assistance.
#[derive(Debug, Clone, PartialEq, Eq)]
pub enum AnalysisState {
    Idle,
    Analyzing,
    Complete,
    Error(String),
}

/// Extraction field in the Rule Builder.
#[derive(Debug, Clone)]
pub struct RuleBuilderField {
    pub name: String,
    pub source: FieldSource,
    pub field_type: FieldType,
    pub pattern: Option<String>,
    /// Sample values (populated from analysis)
    pub sample_values: Vec<String>,
    pub enabled: bool,
}

impl RuleBuilderField {
    /// The builder's view of a field draft: enabled, with no samples yet.
    pub fn from_draft(draft: &FieldDraft) -> (r: Self)
        ensures
            r.name@ == draft.name@,
            r.source == draft.source,
            r.field_type == draft.type_hint,
            opt_string_view(r.pattern) == opt_string_view(draft.pattern),
            r.sample_values@.len() == 0,
            r.enabled,
    {
        RuleBuilderField {
            name: draft.name.clone(),
            source: draft.source,
            field_type: draft.type_hint,
            pattern: draft.pattern.clone(),
            sample_values: Vec::new(),
            enabled: true,
        }
    }
}

/// Matched file in the right panel.
#[derive(Debug, Clone)]
pub struct RuleBuilderFile {
    pub path: String,
    pub relative_path: String,
    pub extractions: std::collections::HashMap<String, String>,
    pub test_result: FileTestResult,
}

/// Ignore picker option.
#[derive(Debug, Clone)]
pub struct IgnoreOption {
    pub pattern: String,
    pub affected_count: usize,
}

/// A tag suggested by analysis, with its score in thousandths (0..=1000).
#[derive(Debug, Clone)]
pub struct TagSuggestion {
    pub tag: String,
    pub score_permille: u32,
}

/// Full Rule Builder state.
#[derive(Debug, Clone)]
pub struct RuleBuilderState {
    pub pattern: String,
    pub pattern_error: Option<String>,
    pub excludes: Vec<String>,
    pub exclude_input: String,
    pub tag: String,
    pub tag_suggestions: Vec<TagSuggestion>,
    pub extractions: Vec<RuleBuilderField>,
    pub enabled: bool,
    pub run_job_on_save: bool,
    pub analysis_state: AnalysisState,
    pub hint: String,
    pub file_results_phase: FileResultsPhase,
    pub folder_matches: Vec<FolderMatch>,
    /// Indices of expanded folders, each listed once
    pub expanded_folder_indices: Vec<usize>,
    pub detected_patterns: Vec<String>,
    pub preview_files: Vec<ExtractionPreviewFile>,
    pub matched_files: Vec<RuleBuilderFile>,
    pub match_count: usize,
    /// Indices into `matched_files` of the rows shown under the filter
    pub visible_indices: Vec<usize>,
    pub selected_file: usize,
    pub selected_extraction: usize,
    pub selected_exclude: usize,
    pub backtest: BacktestSummary,
    pub result_filter: ResultFilter,
    pub ignore_options: Vec<IgnoreOption>,
    pub ignore_selected: usize,
    pub focus: RuleBuilderFocus,
    pub pattern_changed_at: Option<std::time::Instant>,
    pub is_streaming: bool,
    pub stream_elapsed_ms: u64,
    pub glob_progress: GlobProgress,
    pub editing_rule_id: Option<String>,
    pub source_id: Option<String>,
}

/// Indices `i < n` of the files shown under `filter`, in order.
pub open spec fn passing_indices(files: Seq<RuleBuilderFile>, filter: ResultFilter, n: nat) -> Seq<
    usize,
>
    decreases n,
{
    if n == 0 {
        Seq::empty()
    } else {
        let prev = passing_indices(files, filter, (n - 1) as nat);
        if result_passes_filter(files[n - 1].test_result, filter) {
            prev.push((n - 1) as usize)
        } else {
            prev
        }
    }
}

/// The files at the in-range entries of `idx`, in order.
pub open spec fn files_at(idx: Seq<usize>, files: Seq<RuleBuilderFile>) -> Seq<RuleBuilderFile>
    decreases idx.len(),
{
    if idx.len() == 0 {
        Seq::empty()
    } else {
        let prev = files_at(idx.drop_last(), files);
        if idx.last() < files.len() {
            prev.push(files[idx.last() as int])
        } else {
            prev
        }
    }
}

impl RuleBuilderState {
    /// Everything but the pattern, tag, extractions, enabled flag, rule id
    /// and source id is at its starting value.
    pub open spec fn starts_fresh(&self) -> bool {
        &&& self.pattern_error is None
        &&& self.excludes@.len() == 0
        &&& self.exclude_input@ == Seq::<char>::empty()
        &&& self.tag_suggestions@.len() == 0
        &&& self.run_job_on_save
        &&& self.analysis_state == AnalysisState::Idle
        &&& self.hint@ == Seq::<char>::empty()
        &&& self.file_results_phase == FileResultsPhase::Exploration
        &&& self.folder_matches@.len() == 0
        &&& self.expanded_folder_indices@.len() == 0
        &&& self.detected_patterns@.len() == 0
        &&& self.preview_files@.len() == 0
        &&& self.matched_files@.len() == 0
        &&& self.match_count == 0
        &&& self.visible_indices@.len() == 0
        &&& self.selected_file == 0
        &&& self.selected_extraction == 0
        &&& self.selected_exclude == 0
        &&& self.backtest.total_matched == 0 && self.backtest.pass_count == 0
            && self.backtest.fail_count == 0 && self.backtest.excluded_count == 0
            && !self.backtest.is_running
        &&& self.result_filter == ResultFilter::All
        &&& self.ignore_options@.len() == 0
        &&& self.ignore_selected == 0
        &&& self.focus == RuleBuilderFocus::FileList
        &&& self.pattern_changed_at is None
        &&& !self.is_streaming
        &&& self.stream_elapsed_ms == 0
        &&& !self.glob_progress.is_active && self.glob_progress.files_found == 0
            && self.glob_progress.folders_discovered == 0
            && self.glob_progress.folders_scanned == 0
    }

    /// A fresh builder for a source: empty pattern and tag, enabled, focus on
    /// the file list.
    pub fn new(source_id: Option<String>) -> (r: Self)
        ensures
            r.starts_fresh(),
            r.pattern@ == Seq::<char>::empty(),
            r.tag@ == Seq::<char>::empty(),
            r.extractions@.len() == 0,
            r.enabled,
            r.editing_rule_id is None,
            r.source_id == source_id,
    {
        RuleBuilderState {
            pattern: String::new(),
            pattern_error: None,
            excludes: Vec::new(),
            exclude_input: String::new(),
            tag: String::new(),
            tag_suggestions: Vec::new(),
            extractions: Vec::new(),
            enabled: true,
            run_job_on_save: true,
            analysis_state: AnalysisState::Idle,
            hint: String::new(),
            file_results_phase: FileResultsPhase::Exploration,
            folder_matches: Vec::new(),
            expanded_folder_indices: Vec::new(),
            detected_patterns: Vec::new(),
            preview_files: Vec::new(),
            matched_files: Vec::new(),
            match_count: 0,
            visible_indices: Vec::new(),
            selected_file: 0,
            selected_extraction: 0,
            selected_exclude: 0,
            backtest: BacktestSummary::empty(),
            result_filter: ResultFilter::All,
            ignore_options: Vec::new(),
            ignore_selected: 0,
            focus: RuleBuilderFocus::FileList,
            pattern_changed_at: None,
            is_streaming: false,
            stream_elapsed_ms: 0,
            glob_progress: GlobProgress::idle(),
            editing_rule_id: None,
            source_id,
        }
    }

    /// A builder for editing an existing rule draft.
    pub fn from_draft(draft: &RuleDraft, source_id: Option<String>) -> (r: Self)
        ensures
            r.starts_fresh(),
            r.pattern@ == draft.glob_pattern@,
            r.tag@ == draft.base_tag@,
            r.extractions@.len() == draft.fields@.len(),
            forall|k: int|
                0 <= k < draft.fields@.len() ==> {
                    let f = #[trigger] r.extractions@[k];
                    let d = draft.fields@[k];
                    &&& f.name@ == d.name@
                    &&& f.source == d.source
                    &&& f.field_type == d.type_hint
                    &&& opt_string_view(f.pattern) == opt_string_view(d.pattern)
                    &&& f.sample_values@.len() == 0
                    &&& f.enabled
                },
            r.enabled == draft.enabled,
            match draft.id {
                Some(v) => r.editing_rule_id matches Some(s) && s@ == uuid_hyphenated(v),
                None => r.editing_rule_id is None,
            },
            r.source_id == source_id,
    {
        let mut r = RuleBuilderState::new(source_id);
        r.pattern = draft.glob_pattern.clone();
        r.tag = draft.base_tag.clone();
        let mut fields: Vec<RuleBuilderField> = Vec::new();
        let mut k: usize = 0;
        while k < draft.fields.len()
            invariant
                k <= draft.fields@.len(),
                fields@.len() == k,
                forall|m: int|
                    0 <= m < k ==> {
                        let f = #[trigger] fields@[m];
                        let d = draft.fields@[m];
                        &&& f.name@ == d.name@
                        &&& f.source == d.source
                        &&& f.field_type == d.type_hint
                        &&& opt_string_view(f.pattern) == opt_string_view(d.pattern)
                        &&& f.sample_values@.len() == 0
                        &&& f.enabled
                    },
            decreases draft.fields@.len() - k,
        {
            fields.push(RuleBuilderField::from_draft(&draft.fields[k]));
            k += 1;
        }
        r.extractions = fields;
        r.enabled = draft.enabled;
        r.editing_rule_id = match draft.id {
            Some(v) => Some(uuid_to_string(v)),
            None => None,
        };
        r
    }

    /// The files currently shown: those at the visible indices (an index past
    /// the end of `matched_files` is skipped).
    pub fn visible_files(&self) -> (r: Vec<&RuleBuilderFile>)
        ensures
            r@.len() == files_at(self.visible_indices@, self.matched_files@).len(),
            forall|k: int|
                0 <= k < r@.len() ==> *r@[k] == files_at(
                    self.visible_indices@,
                    self.matched_files@,
                )[k],
    {
        let mut r: Vec<&RuleBuilderFile> = Vec::new();
        let mut k: usize = 0;
        while k < self.visible_indices.len()
            invariant
                k <= self.visible_indices@.len(),
                r@.len() == files_at(self.visible_indices@.subrange(0, k as int), self.matched_files@).len(),
                forall|m: int|
                    0 <= m < r@.len() ==> *r@[m] == files_at(
                        self.visible_indices@.subrange(0, k as int),
                        self.matched_files@,
                    )[m],
            decreases self.visible_indices@.len() - k,
        {
            let i = self.visible_indices[k];
            proof {
                let sub = self.visible_indices@.subrange(0, k + 1);
                assert(sub.drop_last() =~= self.visible_indices@.subrange(0, k as int));
                assert(sub.last() == i);
            }
            if i < self.matched_files.len() {
                r.push(&self.matched_files[i]);
            }
            k += 1;
        }
        assert(self.visible_indices@.subrange(0, self.visible_indices@.len() as int)
            =~= self.visible_indices@);
        r
    }

    /// Recomputes the visible rows for the current filter and pulls the
    /// selection back onto the last row if it fell past the end.
    pub fn update_visible(&mut self)
        ensures
            final(self).visible_indices@ == passing_indices(
                old(self).matched_files@,
                old(self).result_filter,
                old(self).matched_files@.len(),
            ),
            final(self).selected_file == (if final(self).visible_indices@.len() > 0
                && old(self).selected_file >= final(self).visible_indices@.len() {
                (final(self).visible_indices@.len() - 1) as usize
            } else {
                old(self).selected_file
            }),
            final(self).matched_files == old(self).matched_files,
            final(self).result_filter == old(self).result_filter,
            final(self).excludes == old(self).excludes,
            final(self).selected_exclude == old(self).selected_exclude,
            final(self).pattern == old(self).pattern,
            final(self).tag == old(self).tag,
    {
        let mut idx: Vec<usize> = Vec::new();
        let mut i: usize = 0;
        while i < self.matched_files.len()
            invariant
                i <= self.matched_files@.len(),
                idx@ == passing_indices(self.matched_files@, self.result_filter, i as nat),
            decreases self.matched_files@.len() - i,
        {
            let shown = match self.result_filter {
                ResultFilter::All => !self.matched_files[i].test_result.is_excluded(),
                ResultFilter::PassOnly => self.matched_files[i].test_result.is_pass(),
                ResultFilter::FailOnly => self.matched_files[i].test_result.is_fail(),
            };
            if shown {
                idx.push(i);
            }
            i += 1;
        }
        self.visible_indices = idx;
        if self.visible_indices.len() > 0 && self.selected_file >= self.visible_indices.len() {
            self.selected_file = self.visible_indices.len() - 1;
        }
    }

    /// Moves to the next result filter and recomputes the visible rows.
    pub fn cycle_filter(&mut self)
        ensures
            final(self).result_filter == old(self).result_filter.next_spec(),
            final(self).visible_indices@ == passing_indices(
                old(self).matched_files@,
                old(self).result_filter.next_spec(),
                old(self).matched_files@.len(),
            ),
            final(self).matched_files == old(self).matched_files,
    {
        self.result_filter = self.result_filter.next();
        self.update_visible();
    }

    /// Adds an exclusion pattern unless it is already listed.
    pub fn add_exclude(&mut self, pattern: String)
        ensures
            (exists|k: int|
                0 <= k < old(self).excludes@.len() && (#[trigger] old(self).excludes@[k])@
                    == pattern@) ==> final(self).excludes@ == old(self).excludes@,
            !(exists|k: int|
                0 <= k < old(self).excludes@.len() && (#[trigger] old(self).excludes@[k])@
                    == pattern@) ==> final(self).excludes@ == old(self).excludes@.push(pattern),
            final(self).selected_exclude == old(self).selected_exclude,
            final(self).pattern == old(self).pattern,
    {
        let p = str_chars(pattern.as_str());
        let mut k: usize = 0;
        while k < self.excludes.len()
            invariant
                k <= self.excludes@.len(),
                p@ == pattern@,
                forall|m: int| 0 <= m < k ==> (#[trigger] self.excludes@[m])@ != pattern@,
            decreases self.excludes@.len() - k,
        {
            let e = str_chars(self.excludes[k].as_str());
            if chars_eq(e.as_slice(), p.as_slice()) {
                return;
            }
            k += 1;
        }
        self.excludes.push(pattern);
    }

    /// Removes the exclusion at `index` (if any) and keeps the selection on a
    /// listed pattern.
    pub fn remove_exclude(&mut self, index: usize)
        ensures
            index < old(self).excludes@.len() ==> final(self).excludes@ == old(self).excludes@.remove(
                index as int,
            ),
            index < old(self).excludes@.len() ==> final(self).selected_exclude == (if old(
                self,
            ).selected_exclude >= final(self).excludes@.len() && final(self).excludes@.len() > 0 {
                (final(self).excludes@.len() - 1) as usize
            } else {
                old(self).selected_exclude
            }),
            index >= old(self).excludes@.len() ==> final(self).excludes@ == old(self).excludes@
                && final(self).selected_exclude == old(self).selected_exclude,
            final(self).pattern == old(self).pattern,
    {
        if index < self.excludes.len() {
            self.excludes.remove(index);
            if self.selected_exclude >= self.excludes.len() && self.excludes.len() > 0 {
                self.selected_exclude = self.excludes.len() - 1;
            }
        }
    }

    /// A rule can be saved once it has a pattern and a tag.
    pub fn can_save(&self) -> (r: bool)
        ensures
            r == (self.pattern@.len() > 0 && self.tag@.len() > 0),
    {
        let p = str_chars(self.pattern.as_str());
        let t = str_chars(self.tag.as_str());
        p.len() > 0 && t.len() > 0
    }

    /// The rule draft to save: the tag is also the rule name, only enabled
    /// extractions become fields, and ids that are not UUIDs are dropped.
    pub fn to_draft(&self) -> (r: RuleDraft)
        ensures
            r.id == (match self.editing_rule_id {
                Some(s) => uuid_parse(s@),
                None => None,
            }),
            r.source_id == (match self.source_id {
                Some(s) => uuid_parse(s@),
                None => None,
            }),
            r.name@ == self.tag@,
            r.glob_pattern@ == self.pattern@,
            r.base_tag@ == self.tag@,
            r.tag_conditions@.len() == 0,
            r.priority == 100,
            r.enabled == self.enabled,
            r.fields@.len() == enabled_count(self.extractions@),
            forall|k: int|
                0 <= k < r.fields@.len() ==> {
                    let f = #[trigger] r.fields@[k];
                    let e = self.extractions@[enabled_position(self.extractions@, k)];
                    &&& f.name@ == e.name@
                    &&& f.source == e.source
                    &&& opt_string_view(f.pattern) == opt_string_view(e.pattern)
                    &&& f.type_hint == e.field_type
                    &&& f.normalizer is None
                    &&& f.default_value is None
                },
    {
        let id = match &self.editing_rule_id {
            Some(s) => parse_uuid(s.as_str()),
            None => None,
        };
        let source_id = match &self.source_id {
            Some(s) => parse_uuid(s.as_str()),
            None => None,
        };
        let mut fields: Vec<FieldDraft> = Vec::new();
        let mut i: usize = 0;
        while i < self.extractions.len()
            invariant
                i <= self.extractions@.len(),
                fields@.len() == enabled_count(self.extractions@.subrange(0, i as int)),
                forall|k: int|
                    0 <= k < fields@.len() ==> {
                        let f = #[trigger] fields@[k];
                        let e = self.extractions@[enabled_position(self.extractions@, k)];
                        &&& f.name@ == e.name@
                        &&& f.source == e.source
                        &&& opt_string_view(f.pattern) == opt_string_view(e.pattern)
                        &&& f.type_hint == e.field_type
                        &&& f.normalizer is None
                        &&& f.default_value is None
                    },
            decreases self.extractions@.len() - i,
        {
            let e = &self.extractions[i];
            proof {
                lemma_enabled_prefix(self.extractions@, i as nat);
            }
            if e.enabled {
                proof {
                    lemma_enabled_position_at(self.extractions@, i as nat);
                }
                fields.push(
                    FieldDraft {
                        name: e.name.clone(),
                        source: e.source,
                        pattern: e.pattern.clone(),
                        type_hint: e.field_type,
                        normalizer: None,
                        default_value: None,
                    },
                );
            }
            i += 1;
        }
        assert(self.extractions@.subrange(0, self.extractions@.len() as int)
            =~= self.extractions@);
        RuleDraft {
            id,
            source_id,
            name: self.tag.clone(),
            glob_pattern: self.pattern.clone(),
            fields,
            base_tag: self.tag.clone(),
            tag_conditions: Vec::new(),
            priority: 100,
            enabled: self.enabled,
        }
    }
}

/// Number of enabled extraction fields.
pub open spec fn enabled_count(v: Seq<RuleBuilderField>) -> nat
    decreases v.len(),
{
    if v.len() == 0 {
        0
    } else {
        enabled_count(v.drop_last()) + if v.last().enabled {
            1nat
        } else {
            0nat
        }
    }
}

/// Position in `v` of the `k`-th enabled field (counting from 0).
pub open spec fn enabled_position(v: Seq<RuleBuilderField>, k: int) -> int {
    choose|p: int|
        0 <= p < v.len() && v[p].enabled && enabled_count(v.subrange(0, p)) == k
}

proof fn lemma_enabled_count_prefix_mono(v: Seq<RuleBuilderField>, a: int, b: int)
    requires
        0 <= a <= b <= v.len(),
    ensures
        enabled_count(v.subrange(0, a)) <= enabled_count(v.subrange(0, b)),
    decreases b - a,
{
    if a < b {
        lemma_enabled_count_prefix_mono(v, a, b - 1);
        assert(v.subrange(0, b).drop_last() =~= v.subrange(0, b - 1));
    }
}

/// Prefix counts step by one exactly at enabled fields.
proof fn lemma_enabled_prefix(v: Seq<RuleBuilderField>, i: nat)
    requires
        i < v.len(),
    ensures
        enabled_count(v.subrange(0, i as int + 1)) == enabled_count(v.subrange(0, i as int)) + if v[i as int].enabled {
            1nat
        } else {
            0nat
        },
{
    assert(v.subrange(0, i as int + 1).drop_last() =~= v.subrange(0, i as int));
}

/// The enabled field at position `i` is the `enabled_count(v[..i])`-th one,
/// and that choice is unique.
proof fn lemma_enabled_position_at(v: Seq<RuleBuilderField>, i: nat)
    requires
        i < v.len(),
        v[i as int].enabled,
    ensures
        enabled_position(v, enabled_count(v.subrange(0, i as int)) as int) == i,
{
    let k = enabled_count(v.subrange(0, i as int)) as int;
    assert(0 <= i < v.len() && v[i as int].enabled && enabled_count(v.subrange(0, i as int)) == k);
    let p = enabled_position(v, k);
    if p != i {
        if p < i {
            lemma_enabled_prefix(v, p as nat);
            lemma_enabled_count_prefix_mono(v, p + 1, i as int);
        } else {
            lemma_enabled_prefix(v, i as nat);
            lemma_enabled_count_prefix_mono(v, i as int + 1, p);
        }
    }
}

/// Whether `x` is one of the strings of `v`.
fn has_string(v: &Vec<String>, x: &str) -> (r: bool)
    ensures
        r == strings_view(v@).contains(x@),
{
    let mut i: usize = 0;
    while i < v.len()
        invariant
            i <= v.len(),
            forall|k: int| 0 <= k < i ==> v@[k]@ != x@,
        decreases v.len() - i,
    {
        if str_eq(v[i].as_str(), x) {
            proof {
                assert(strings_view(v@)[i as int] == x@);
            }
            return true;
        }
        i += 1;
    }
    proof {
        if strings_view(v@).contains(x@) {
            let k = choose|k: int| 0 <= k < strings_view(v@).len() && strings_view(v@)[k] == x@;
            assert(v@[k]@ == x@);
        }
    }
    false
}

/// A path is taken: all are when `only_selected` is off, else those among
/// `selected`.
pub open spec fn path_taken(only_selected: bool, selected: Seq<Seq<char>>, p: Seq<char>) -> bool {
    !only_selected || selected.contains(p)
}

/// The preview paths among the first `n` preview files that are taken.
pub open spec fn preview_paths_upto(
    files: Seq<ExtractionPreviewFile>,
    only_selected: bool,
    selected: Seq<Seq<char>>,
    n: int,
) -> Seq<Seq<char>>
    decreases n,
{
    if n <= 0 {
        Seq::empty()
    } else {
        let rest = preview_paths_upto(files, only_selected, selected, n - 1);
        let p = files[n - 1].relative_path@;
        if path_taken(only_selected, selected, p) {
            rest.push(p)
        } else {
            rest
        }
    }
}

/// The paths of the matched files at the first `n` visible indices that
/// exist and are taken.
pub open spec fn visible_paths_upto(
    files: Seq<RuleBuilderFile>,
    visible: Seq<usize>,
    only_selected: bool,
    selected: Seq<Seq<char>>,
    n: int,
) -> Seq<Seq<char>>
    decreases n,
{
    if n <= 0 {
        Seq::empty()
    } else {
        let rest = visible_paths_upto(files, visible, only_selected, selected, n - 1);
        let i = visible[n - 1] as int;
        if i < files.len() && path_taken(only_selected, selected, files[i].relative_path@) {
            rest.push(files[i].relative_path@)
        } else {
            rest
        }
    }
}

impl RuleBuilderState {
    /// The relative path of the selected result: the selected preview file
    /// while previewing extractions, the selected visible matched file in
    /// backtest results; nothing while exploring or when the selection is
    /// past the list.
    pub open spec fn selected_rel_path_spec(&self) -> Option<Seq<char>> {
        let sel = self.selected_file as int;
        match self.file_results_phase {
            FileResultsPhase::ExtractionPreview => if sel < self.preview_files@.len() {
                Some(self.preview_files@[sel].relative_path@)
            } else {
                None
            },
            FileResultsPhase::BacktestResults => if sel < self.visible_indices@.len()
                && self.visible_indices@[sel] < self.matched_files@.len() {
                Some(self.matched_files@[self.visible_indices@[sel] as int].relative_path@)
            } else {
                None
            },
            FileResultsPhase::Exploration => None,
        }
    }

    /// See `selected_rel_path_spec`.
    pub fn selected_rel_path(&self) -> (r: Option<String>)
        ensures
            opt_string_view(r) == self.selected_rel_path_spec(),
    {
        let sel = self.selected_file;
        match self.file_results_phase {
            FileResultsPhase::ExtractionPreview => {
                if sel < self.preview_files.len() {
                    Some(self.preview_files[sel].relative_path.clone())
                } else {
                    None
                }
            },
            FileResultsPhase::BacktestResults => {
                if sel < self.visible_indices.len() && self.visible_indices[sel]
                    < self.matched_files.len() {
                    Some(self.matched_files[self.visible_indices[sel]].relative_path.clone())
                } else {
                    None
                }
            },
            FileResultsPhase::Exploration => None,
        }
    }

    /// The relative paths of the results shown, in order (the preview files,
    /// or the visible matched files), keeping only those in `selected` when
    /// `only_selected` is on; none while exploring.
    pub fn preview_paths(&self, only_selected: bool, selected: &Vec<String>) -> (r: Vec<String>)
        ensures
            strings_view(r@) == match self.file_results_phase {
                FileResultsPhase::ExtractionPreview => preview_paths_upto(
                    self.preview_files@,
                    only_selected,
                    strings_view(selected@),
                    self.preview_files@.len() as int,
                ),
                FileResultsPhase::BacktestResults => visible_paths_upto(
                    self.matched_files@,
                    self.visible_indices@,
                    only_selected,
                    strings_view(selected@),
                    self.visible_indices@.len() as int,
                ),
                FileResultsPhase::Exploration => Seq::<Seq<char>>::empty(),
            },
    {
        let mut paths: Vec<String> = Vec::new();
        let ghost sv = strings_view(selected@);
        match self.file_results_phase {
            FileResultsPhase::ExtractionPreview => {
                let mut i: usize = 0;
                while i < self.preview_files.len()
                    invariant
                        i <= self.preview_files@.len(),
                        sv == strings_view(selected@),
                        strings_view(paths@) == preview_paths_upto(
                            self.preview_files@,
                            only_selected,
                            sv,
                            i as int,
                        ),
                    decreases self.preview_files@.len() - i,
                {
                    let p = &self.preview_files[i].relative_path;
                    if !only_selected || has_string(selected, p.as_str()) {
                        paths.push(p.clone());
                        proof {
                            assert(strings_view(paths@) =~= preview_paths_upto(
                                self.preview_files@,
                                only_selected,
                                sv,
                                i as int,
                            ).push(p@));
                        }
                    }
                    i += 1;
                }
            },
            FileResultsPhase::BacktestResults => {
                let mut i: usize = 0;
                while i < self.visible_indices.len()
                    invariant
                        i <= self.visible_indices@.len(),
                        sv == strings_view(selected@),
                        strings_view(paths@) == visible_paths_upto(
                            self.matched_files@,
                            self.visible_indices@,
                            only_selected,
                            sv,
                            i as int,
                        ),
                    decreases self.visible_indices@.len() - i,
                {
                    let idx = self.visible_indices[i];
                    if idx < self.matched_files.len() {
                        let p = &self.matched_files[idx].relative_path;
                        if !only_selected || has_string(selected, p.as_str()) {
                            paths.push(p.clone());
                            proof {
                                assert(strings_view(paths@) =~= visible_paths_upto(
                                    self.matched_files@,
                                    self.visible_indices@,
                                    only_selected,
                                    sv,
                                    i as int,
                                ).push(p@));
                            }
                        }
                    }
                    i += 1;
                }
            },
            FileResultsPhase::Exploration => {},
        }
        proof {
            if self.file_results_phase == FileResultsPhase::Exploration {
                assert(strings_view(paths@) =~= Seq::<Seq<char>>::empty());
            }
        }
        paths
    }
}

} // verus!

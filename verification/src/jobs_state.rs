//! The Jobs screen: filters, the actionable and ready lists, selection, and
//! merging a refreshed snapshot of jobs into the list.
use vstd::prelude::*;
use crate::tabs::{after_return, after_transition, clamped, clamp_index, TuiMode};
use crate::jobs::{JobInfo, JobStatus, JobType, JobsListSection, JobsViewState, MonitoringState, PipelineStage, PipelineState};
use crate::selection::{lemma_selected_count_transfer, lemma_selection_transfer, selected_count, sort_selection, sorted_selection};

verus! {

// ---------------------------------------------------------------------------
// Row selections and orders
// ---------------------------------------------------------------------------

pub open spec fn matches_filters(sf: Option<JobStatus>, tf: Option<JobType>, j: JobInfo) -> bool {
    &&& (match sf {
        Some(s) => j.status == s,
        None => true,
    })
    &&& (match tf {
        Some(t) => j.job_type == t,
        None => true,
    })
}

/// Jobs that still need attention.
pub open spec fn is_actionable(s: JobStatus) -> bool {
    s == JobStatus::Pending || s == JobStatus::Running || s == JobStatus::Failed || s
        == JobStatus::Cancelled
}

/// Jobs whose output is ready.
pub open spec fn is_ready(s: JobStatus) -> bool {
    s == JobStatus::Completed || s == JobStatus::PartialSuccess
}

/// Order of statuses in the actionable list.
pub open spec fn actionable_rank(s: JobStatus) -> int {
    match s {
        JobStatus::Running => 0,
        JobStatus::Pending => 1,
        JobStatus::Failed => 2,
        JobStatus::Cancelled => 3,
        JobStatus::PartialSuccess => 4,
        JobStatus::Completed => 5,
    }
}

/// Sort key for "most recent first" on a completion time; jobs without one
/// come last.
pub open spec fn completed_desc(c: Option<i64>) -> int {
    match c {
        Some(t) => -(t as int),
        None => 0x8000_0000_0000_0001,
    }
}

/// State of the Jobs screen.
#[derive(Debug, Clone)]
pub struct JobsState {
    pub view_state: JobsViewState,
    pub previous_view_state: Option<JobsViewState>,
    pub previous_mode: Option<TuiMode>,
    pub jobs: Vec<JobInfo>,
    /// Selected row of the focused list
    pub selected_index: usize,
    pub section_focus: JobsListSection,
    /// Remembered selection for the actionable list
    pub actionable_index: usize,
    /// Remembered selection for the ready list
    pub ready_index: usize,
    /// Pinned job for the details panel
    pub pinned_job_id: Option<i64>,
    pub status_filter: Option<JobStatus>,
    pub type_filter: Option<JobType>,
    pub show_pipeline: bool,
    pub pipeline: PipelineState,
    pub monitoring: MonitoringState,
    pub log_viewer_scroll: usize,
    pub jobs_loaded: bool,
    /// Last poll time (milliseconds since the epoch)
    pub last_poll: Option<i64>,
}

impl JobsState {
    pub open spec fn filter_sel(&self) -> spec_fn(int) -> bool {
        |i: int| matches_filters(self.status_filter, self.type_filter, self.jobs@[i])
    }

    /// Failed jobs first, then most recently started first.
    pub open spec fn filtered_key(&self) -> spec_fn(int) -> (int, int) {
        |i: int|
            (
                if self.jobs@[i].status == JobStatus::Failed {
                    0int
                } else {
                    1int
                },
                -(self.jobs@[i].started_at as int),
            )
    }

    pub open spec fn actionable_sel(&self) -> spec_fn(int) -> bool {
        |i: int|
            matches_filters(self.status_filter, self.type_filter, self.jobs@[i]) && is_actionable(
                self.jobs@[i].status,
            )
    }

    /// Running, pending, failed, cancelled; most recently started first.
    pub open spec fn actionable_key(&self) -> spec_fn(int) -> (int, int) {
        |i: int| (actionable_rank(self.jobs@[i].status), -(self.jobs@[i].started_at as int))
    }

    pub open spec fn ready_sel(&self) -> spec_fn(int) -> bool {
        |i: int|
            matches_filters(self.status_filter, self.type_filter, self.jobs@[i]) && is_ready(
                self.jobs@[i].status,
            )
    }

    /// Most recently completed first.
    pub open spec fn ready_key(&self) -> spec_fn(int) -> (int, int) {
        |i: int| (0int, completed_desc(self.jobs@[i].completed_at))
    }

    /// Rows of `jobs` in the filtered list, in display order.
    pub open spec fn filtered_order(&self) -> Seq<usize> {
        sorted_selection(self.jobs@.len(), self.filter_sel(), self.filtered_key())
    }

    pub open spec fn actionable_order(&self) -> Seq<usize> {
        sorted_selection(self.jobs@.len(), self.actionable_sel(), self.actionable_key())
    }

    pub open spec fn ready_order(&self) -> Seq<usize> {
        sorted_selection(self.jobs@.len(), self.ready_sel(), self.ready_key())
    }

    pub open spec fn actionable_count(&self) -> nat {
        selected_count(self.jobs@.len(), self.actionable_sel())
    }

    pub open spec fn ready_count(&self) -> nat {
        selected_count(self.jobs@.len(), self.ready_sel())
    }

    pub open spec fn focused_order(&self) -> Seq<usize> {
        match self.section_focus {
            JobsListSection::Actionable => self.actionable_order(),
            JobsListSection::Ready => self.ready_order(),
        }
    }

    /// Row of the pinned job, or -1 when none is pinned or it is gone.
    pub open spec fn pinned_row(&self) -> int {
        match self.pinned_job_id {
            Some(p) => first_with_id(self.jobs@, p),
            None => -1,
        }
    }

    /// Row shown in the details panel: the pinned job, else the selected row
    /// of the focused list; -1 for none.
    pub open spec fn selected_row(&self) -> int {
        if self.pinned_row() >= 0 {
            self.pinned_row()
        } else if self.selected_index < self.focused_order().len() {
            self.focused_order()[self.selected_index as int] as int
        } else {
            -1
        }
    }

    /// The three list orders computed by `order_of`.
    pub open spec fn order_spec(&self, which: u8) -> Seq<usize> {
        if which == 0 {
            self.filtered_order()
        } else if which == 1 {
            self.actionable_order()
        } else {
            self.ready_order()
        }
    }

    pub open spec fn count_spec(&self, which: u8) -> nat {
        if which == 0 {
            selected_count(self.jobs@.len(), self.filter_sel())
        } else if which == 1 {
            self.actionable_count()
        } else {
            self.ready_count()
        }
    }

    /// Whether a job passes the status and type filters.
    fn job_matches_filters(&self, job: &JobInfo) -> (r: bool)
        ensures
            r == matches_filters(self.status_filter, self.type_filter, *job),
    {
        let status_ok = match self.status_filter {
            Some(status) => job.status == status,
            None => true,
        };
        let type_ok = match self.type_filter {
            Some(jtype) => job.job_type == jtype,
            None => true,
        };
        status_ok && type_ok
    }

    /// Row order of one of the lists: 0 filtered, 1 actionable, 2 ready.
    fn order_of(&self, which: u8) -> (r: Vec<usize>)
        requires
            which <= 2,
        ensures
            r@ == self.order_spec(which),
            r@.len() == self.count_spec(which),
            forall|p: int| 0 <= p < r@.len() ==> #[trigger] r@[p] < self.jobs@.len(),
    {
        let mut keys: Vec<(i64, i128)> = Vec::new();
        let mut picked: Vec<bool> = Vec::new();
        let ghost sel: spec_fn(int) -> bool = if which == 0 {
            self.filter_sel()
        } else if which == 1 {
            self.actionable_sel()
        } else {
            self.ready_sel()
        };
        let ghost key: spec_fn(int) -> (int, int) = if which == 0 {
            self.filtered_key()
        } else if which == 1 {
            self.actionable_key()
        } else {
            self.ready_key()
        };
        let mut i: usize = 0;
        while i < self.jobs.len()
            invariant
                i <= self.jobs@.len(),
                which <= 2,
                keys@.len() == i,
                picked@.len() == i,
                sel == (if which == 0 {
                    self.filter_sel()
                } else if which == 1 {
                    self.actionable_sel()
                } else {
                    self.ready_sel()
                }),
                key == (if which == 0 {
                    self.filtered_key()
                } else if which == 1 {
                    self.actionable_key()
                } else {
                    self.ready_key()
                }),
                forall|k: int|
                    0 <= k < i ==> #[trigger] picked@[k] == sel(k) && (keys@[k].0 as int, keys@[k].1 as int)
                        == key(k),
            decreases self.jobs@.len() - i,
        {
            let job = &self.jobs[i];
            let f = self.job_matches_filters(job);
            let started: i128 = -(job.started_at as i128);
            let (pick, k0, k1): (bool, i64, i128) = if which == 0 {
                (f, if job.status == JobStatus::Failed {
                    0
                } else {
                    1
                }, started)
            } else if which == 1 {
                let actionable = match job.status {
                    JobStatus::Pending | JobStatus::Running | JobStatus::Failed
                    | JobStatus::Cancelled => true,
                    _ => false,
                };
                let rank: i64 = match job.status {
                    JobStatus::Running => 0,
                    JobStatus::Pending => 1,
                    JobStatus::Failed => 2,
                    JobStatus::Cancelled => 3,
                    JobStatus::PartialSuccess => 4,
                    JobStatus::Completed => 5,
                };
                (f && actionable, rank, started)
            } else {
                let ready = match job.status {
                    JobStatus::Completed | JobStatus::PartialSuccess => true,
                    _ => false,
                };
                let c: i128 = match job.completed_at {
                    Some(t) => -(t as i128),
                    None => 0x8000_0000_0000_0001,
                };
                (f && ready, 0, c)
            };
            keys.push((k0, k1));
            picked.push(pick);
            i += 1;
        }
        let order = sort_selection(&keys, &picked);
        proof {
            let n = self.jobs@.len();
            let sel1 = |i: int| picked@[i];
            let key1 = |i: int| (keys@[i].0 as int, keys@[i].1 as int);
            assert forall|i: int| #![trigger sel(i)] #![trigger key(i)] 0 <= i < n implies sel1(i) == sel(i)
                && key1(i) == key(i) by {
                assert(picked@[i] == sel(i));
            }
            lemma_selection_transfer(order@, n, sel1, key1, sel, key);
            lemma_selected_count_transfer(n, sel1, sel);
        }
        order
    }

    /// The jobs at the given rows, in order.
    fn rows<'a>(&'a self, order: &Vec<usize>) -> (r: Vec<&'a JobInfo>)
        requires
            forall|p: int| 0 <= p < order@.len() ==> #[trigger] order@[p] < self.jobs@.len(),
        ensures
            r@.len() == order@.len(),
            forall|p: int| 0 <= p < r@.len() ==> *r@[p] == self.jobs@[order@[p] as int],
    {
        let mut r: Vec<&JobInfo> = Vec::new();
        let mut p: usize = 0;
        while p < order.len()
            invariant
                p <= order@.len(),
                r@.len() == p,
                forall|p: int| 0 <= p < order@.len() ==> #[trigger] order@[p] < self.jobs@.len(),
                forall|q: int| 0 <= q < p ==> *r@[q] == self.jobs@[order@[q] as int],
            decreases order@.len() - p,
        {
            r.push(&self.jobs[order[p]]);
            p += 1;
        }
        r
    }

    /// Jobs passing the filters, failed jobs first, then most recently started.
    pub fn filtered_jobs(&self) -> (r: Vec<&JobInfo>)
        ensures
            r@.len() == self.filtered_order().len(),
            forall|p: int|
                0 <= p < r@.len() ==> *r@[p] == self.jobs@[self.filtered_order()[p] as int],
    {
        let order = self.order_of(0);
        self.rows(&order)
    }

    /// Filtered jobs that need attention: running, then pending, failed,
    /// cancelled; most recently started first within a status.
    pub fn actionable_jobs(&self) -> (r: Vec<&JobInfo>)
        ensures
            r@.len() == self.actionable_order().len(),
            r@.len() == self.actionable_count(),
            forall|p: int|
                0 <= p < r@.len() ==> *r@[p] == self.jobs@[self.actionable_order()[p] as int],
    {
        let order = self.order_of(1);
        self.rows(&order)
    }

    /// Filtered jobs whose output is ready, most recently completed first.
    pub fn ready_jobs(&self) -> (r: Vec<&JobInfo>)
        ensures
            r@.len() == self.ready_order().len(),
            r@.len() == self.ready_count(),
            forall|p: int| 0 <= p < r@.len() ==> *r@[p] == self.jobs@[self.ready_order()[p] as int],
    {
        let order = self.order_of(2);
        self.rows(&order)
    }

    /// The list that has focus.
    pub fn focused_jobs(&self) -> (r: Vec<&JobInfo>)
        ensures
            r@.len() == self.focused_order().len(),
            forall|p: int|
                0 <= p < r@.len() ==> *r@[p] == self.jobs@[self.focused_order()[p] as int],
    {
        match self.section_focus {
            JobsListSection::Actionable => self.actionable_jobs(),
            JobsListSection::Ready => self.ready_jobs(),
        }
    }

    /// Stores the selection in the focused list's memory, clamps both
    /// remembered selections to their lists, and reselects the focused one.
    pub fn clamp_selection(&mut self)
        ensures
            final(self).jobs == old(self).jobs,
            final(self).status_filter == old(self).status_filter,
            final(self).type_filter == old(self).type_filter,
            final(self).section_focus == old(self).section_focus,
            final(self).pinned_job_id == old(self).pinned_job_id,
            final(self).view_state == old(self).view_state,
            final(self).previous_view_state == old(self).previous_view_state,
            final(self).actionable_index == clamped(
                if old(self).section_focus == JobsListSection::Actionable {
                    old(self).selected_index
                } else {
                    old(self).actionable_index
                },
                old(self).actionable_count() as usize,
            ),
            final(self).ready_index == clamped(
                if old(self).section_focus == JobsListSection::Ready {
                    old(self).selected_index
                } else {
                    old(self).ready_index
                },
                old(self).ready_count() as usize,
            ),
            final(self).selected_index == (match old(self).section_focus {
                JobsListSection::Actionable => final(self).actionable_index,
                JobsListSection::Ready => final(self).ready_index,
            }),
    {
        match self.section_focus {
            JobsListSection::Actionable => self.actionable_index = self.selected_index,
            JobsListSection::Ready => self.ready_index = self.selected_index,
        }
        let a = self.order_of(1);
        let r = self.order_of(2);
        let actionable_count = a.len();
        let ready_count = r.len();
        self.actionable_index = clamp_index(self.actionable_index, actionable_count);
        self.ready_index = clamp_index(self.ready_index, ready_count);
        self.selected_index = match self.section_focus {
            JobsListSection::Actionable => self.actionable_index,
            JobsListSection::Ready => self.ready_index,
        };
    }

    /// Sets the status filter and clamps the selection.
    pub fn set_filter(&mut self, filter: Option<JobStatus>)
        ensures
            final(self).status_filter == filter,
            final(self).type_filter == old(self).type_filter,
            final(self).jobs == old(self).jobs,
            final(self).section_focus == old(self).section_focus,
            final(self).selected_index == (match old(self).section_focus {
                JobsListSection::Actionable => final(self).actionable_index,
                JobsListSection::Ready => final(self).ready_index,
            }),
            final(self).actionable_index < final(self).actionable_count()
                || final(self).actionable_count() == 0 && final(self).actionable_index == 0,
            final(self).ready_index < final(self).ready_count() || final(self).ready_count() == 0
                && final(self).ready_index == 0,
    {
        self.status_filter = filter;
        self.clamp_selection();
    }

    /// Cycles the status filter: none, pending, running, failed, cancelled,
    /// completed, partial, none.
    pub fn cycle_status_filter(&mut self)
        ensures
            final(self).status_filter == next_status_filter(old(self).status_filter),
            final(self).type_filter == old(self).type_filter,
            final(self).jobs == old(self).jobs,
            final(self).section_focus == old(self).section_focus,
    {
        self.status_filter = match self.status_filter {
            None => Some(JobStatus::Pending),
            Some(JobStatus::Pending) => Some(JobStatus::Running),
            Some(JobStatus::Running) => Some(JobStatus::Failed),
            Some(JobStatus::Failed) => Some(JobStatus::Cancelled),
            Some(JobStatus::Cancelled) => Some(JobStatus::Completed),
            Some(JobStatus::Completed) => Some(JobStatus::PartialSuccess),
            Some(JobStatus::PartialSuccess) => None,
        };
        self.clamp_selection();
    }

    /// Cycles the type filter: none, scan, parse, backtest, schema, none.
    pub fn cycle_type_filter(&mut self)
        ensures
            final(self).type_filter == next_type_filter(old(self).type_filter),
            final(self).status_filter == old(self).status_filter,
            final(self).jobs == old(self).jobs,
            final(self).section_focus == old(self).section_focus,
    {
        self.type_filter = match self.type_filter {
            None => Some(JobType::Scan),
            Some(JobType::Scan) => Some(JobType::Parse),
            Some(JobType::Parse) => Some(JobType::Backtest),
            Some(JobType::Backtest) => Some(JobType::SchemaEval),
            Some(JobType::SchemaEval) => None,
        };
        self.clamp_selection();
    }

    /// Clears both filters and clamps the selection.
    pub fn clear_filters(&mut self)
        ensures
            final(self).status_filter is None,
            final(self).type_filter is None,
            final(self).jobs == old(self).jobs,
            final(self).section_focus == old(self).section_focus,
    {
        self.status_filter = None;
        self.type_filter = None;
        self.clamp_selection();
    }

    /// Moves to a view state, remembering the current one.
    pub fn transition_state(&mut self, new_state: JobsViewState)
        ensures
            (final(self).view_state, final(self).previous_view_state) == after_transition(
                old(self).view_state,
                new_state,
            ),
            final(self).jobs == old(self).jobs,
    {
        self.previous_view_state = Some(self.view_state);
        self.view_state = new_state;
    }

    /// Goes back to the remembered view state (or the job list) and forgets it.
    pub fn return_to_previous_state(&mut self)
        ensures
            (final(self).view_state, final(self).previous_view_state) == after_return(
                old(self).view_state,
                old(self).previous_view_state,
                JobsViewState::JobList,
            ),
            final(self).jobs == old(self).jobs,
    {
        match self.previous_view_state {
            Some(prev) => {
                self.view_state = prev;
                self.previous_view_state = None;
            },
            None => {
                self.view_state = JobsViewState::JobList;
            },
        }
    }

    /// The pinned job if it is still listed, else the selected row of the
    /// focused list.
    pub fn selected_job(&self) -> (r: Option<&JobInfo>)
        ensures
            self.selected_row() >= 0 ==> (r matches Some(j) && *j == self.jobs@[self.selected_row()]),
            self.selected_row() < 0 ==> r is None,
    {
        if let Some(pinned_id) = self.pinned_job_id {
            let mut k: usize = 0;
            while k < self.jobs.len()
                invariant
                    k <= self.jobs@.len(),
                    self.pinned_job_id == Some(pinned_id),
                    forall|q: int| 0 <= q < k ==> #[trigger] self.jobs@[q].id != pinned_id,
                decreases self.jobs@.len() - k,
            {
                if self.jobs[k].id == pinned_id {
                    proof {
                        lemma_first_with_id(self.jobs@, pinned_id, k as int);
                    }
                    return Some(&self.jobs[k]);
                }
                k += 1;
            }
            proof {
                lemma_first_with_id(self.jobs@, pinned_id, k as int);
            }
        }
        let order = match self.section_focus {
            JobsListSection::Actionable => self.order_of(1),
            JobsListSection::Ready => self.order_of(2),
        };
        if self.selected_index < order.len() {
            Some(&self.jobs[order[self.selected_index]])
        } else {
            None
        }
    }
}

impl Default for JobsState {
    /// The job list screen with no jobs, no filters and nothing selected.
    fn default() -> (r: Self)
        ensures
            r.jobs@.len() == 0,
            r.view_state == JobsViewState::JobList,
            r.previous_view_state is None,
            r.previous_mode is None,
            r.selected_index == 0,
            r.section_focus == JobsListSection::Actionable,
            r.actionable_index == 0,
            r.ready_index == 0,
            r.pinned_job_id is None,
            r.status_filter is None,
            r.type_filter is None,
            !r.show_pipeline,
            r.log_viewer_scroll == 0,
            !r.jobs_loaded,
            r.last_poll is None,
    {
        JobsState {
            view_state: JobsViewState::JobList,
            previous_view_state: None,
            previous_mode: None,
            jobs: Vec::new(),
            selected_index: 0,
            section_focus: JobsListSection::Actionable,
            actionable_index: 0,
            ready_index: 0,
            pinned_job_id: None,
            status_filter: None,
            type_filter: None,
            show_pipeline: false,
            pipeline: PipelineState {
                source: PipelineStage { count: 0, in_progress: 0 },
                parsed: PipelineStage { count: 0, in_progress: 0 },
                output: PipelineStage { count: 0, in_progress: 0 },
                active_parser: None,
            },
            monitoring: MonitoringState::empty(),
            log_viewer_scroll: 0,
            jobs_loaded: false,
            last_poll: None,
        }
    }
}

/// Index of the first job with this id (or -1).
pub open spec fn first_with_id(jobs: Seq<JobInfo>, id: i64) -> int
    decreases jobs.len(),
{
    if jobs.len() == 0 {
        -1
    } else if jobs[0].id == id {
        0
    } else {
        let r = first_with_id(jobs.drop_first(), id);
        if r >= 0 {
            r + 1
        } else {
            -1
        }
    }
}

/// Before the first row with the id there is none; at it, the search stops.
pub proof fn lemma_first_with_id(jobs: Seq<JobInfo>, id: i64, k: int)
    requires
        0 <= k <= jobs.len(),
        forall|q: int| 0 <= q < k ==> #[trigger] jobs[q].id != id,
    ensures
        k < jobs.len() && jobs[k].id == id ==> first_with_id(jobs, id) == k,
        k == jobs.len() ==> first_with_id(jobs, id) == -1,
    decreases k,
{
    if k > 0 {
        assert forall|q: int| 0 <= q < k - 1 implies #[trigger] jobs.drop_first()[q].id != id by {
            assert(jobs.drop_first()[q] == jobs[q + 1]);
        }
        lemma_first_with_id(jobs.drop_first(), id, k - 1);
    }
}

/// A found row is in range and has the id.
pub proof fn lemma_first_with_id_found(jobs: Seq<JobInfo>, id: i64)
    ensures
        first_with_id(jobs, id) < jobs.len(),
        first_with_id(jobs, id) >= 0 ==> jobs[first_with_id(jobs, id)].id == id,
    decreases jobs.len(),
{
    if jobs.len() > 0 {
        lemma_first_with_id_found(jobs.drop_first(), id);
    }
}

pub open spec fn next_status_filter(f: Option<JobStatus>) -> Option<JobStatus> {
    match f {
        None => Some(JobStatus::Pending),
        Some(JobStatus::Pending) => Some(JobStatus::Running),
        Some(JobStatus::Running) => Some(JobStatus::Failed),
        Some(JobStatus::Failed) => Some(JobStatus::Cancelled),
        Some(JobStatus::Cancelled) => Some(JobStatus::Completed),
        Some(JobStatus::Completed) => Some(JobStatus::PartialSuccess),
        Some(JobStatus::PartialSuccess) => None,
    }
}

pub open spec fn next_type_filter(f: Option<JobType>) -> Option<JobType> {
    match f {
        None => Some(JobType::Scan),
        Some(JobType::Scan) => Some(JobType::Parse),
        Some(JobType::Parse) => Some(JobType::Backtest),
        Some(JobType::Backtest) => Some(JobType::SchemaEval),
        Some(JobType::SchemaEval) => None,
    }
}

/// Cycling the status filter seven times returns to the starting filter.
pub proof fn law_status_filter_cycle(f: Option<JobStatus>)
    ensures
        next_status_filter(
            next_status_filter(
                next_status_filter(
                    next_status_filter(next_status_filter(next_status_filter(next_status_filter(f)))),
                ),
            ),
        ) == f,
{
}

/// Cycling the type filter five times returns to the starting filter.
pub proof fn law_type_filter_cycle(f: Option<JobType>)
    ensures
        next_type_filter(next_type_filter(next_type_filter(next_type_filter(next_type_filter(f)))))
            == f,
{
}

} // verus!

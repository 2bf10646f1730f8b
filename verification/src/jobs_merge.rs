//! Keeping the job list bounded, adding jobs, status-bar totals, and merging
//! a refreshed snapshot of jobs into the list.
use vstd::prelude::*;
use crate::tabs::clamped;
use crate::jobs::{
    dup_failures, dup_violations, jobs_view, JobInfo, JobOrigin, JobStatus, JobView,
    JobsListSection, MAX_JOBS,
};
use crate::jobs_state::{first_with_id, lemma_first_with_id, JobsState};

verus! {

// ---------------------------------------------------------------------------
// Trimming
// ---------------------------------------------------------------------------

/// Finished jobs that trimming may drop.
pub open spec fn is_removable(s: JobStatus) -> bool {
    s == JobStatus::Completed || s == JobStatus::PartialSuccess || s == JobStatus::Failed
}

/// Jobs that are still going.
pub open spec fn is_active(s: JobStatus) -> bool {
    s == JobStatus::Running || s == JobStatus::Pending
}

pub open spec fn active_count(v: Seq<JobView>) -> nat
    decreases v.len(),
{
    if v.len() == 0 {
        0
    } else {
        active_count(v.drop_last()) + if is_active(v.last().status) {
            1nat
        } else {
            0nat
        }
    }
}

pub open spec fn removable_count(v: Seq<JobView>) -> nat
    decreases v.len(),
{
    if v.len() == 0 {
        0
    } else {
        removable_count(v.drop_last()) + if is_removable(v.last().status) {
            1nat
        } else {
            0nat
        }
    }
}

/// Drops the last `n` removable jobs (the oldest ones, since new jobs are
/// added at the front), or all of them when there are fewer.
pub open spec fn drop_last_removable(v: Seq<JobView>, n: nat) -> Seq<JobView>
    decreases v.len(),
{
    if n == 0 || v.len() == 0 {
        v
    } else if is_removable(v.last().status) {
        drop_last_removable(v.drop_last(), (n - 1) as nat)
    } else {
        drop_last_removable(v.drop_last(), n).push(v.last())
    }
}

/// The list after trimming: above `MAX_JOBS` jobs, enough of the oldest
/// finished jobs go to bring the list back to `MAX_JOBS`, as far as finished
/// jobs allow.
pub open spec fn trimmed(v: Seq<JobView>) -> Seq<JobView> {
    if v.len() <= MAX_JOBS {
        v
    } else {
        let active = active_count(v);
        let completed = v.len() - active;
        let target = if active >= MAX_JOBS {
            0
        } else {
            MAX_JOBS - active
        };
        if completed > target {
            drop_last_removable(v, (completed - target) as nat)
        } else {
            v
        }
    }
}

/// The jobs that trimming never touches, in order.
pub open spec fn kept_part(v: Seq<JobView>) -> Seq<JobView>
    decreases v.len(),
{
    if v.len() == 0 {
        v
    } else if is_removable(v.last().status) {
        kept_part(v.drop_last())
    } else {
        kept_part(v.drop_last()).push(v.last())
    }
}

proof fn lemma_active_count_le(v: Seq<JobView>)
    ensures
        active_count(v) <= v.len(),
    decreases v.len(),
{
    if v.len() > 0 {
        lemma_active_count_le(v.drop_last());
    }
}

fn trim_jobs(jobs: &mut Vec<JobInfo>)
    ensures
        jobs_view(final(jobs)@) == trimmed(jobs_view(old(jobs)@)),
{
    let ghost orig = jobs_view(jobs@);
    if jobs.len() <= MAX_JOBS {
        return ;
    }
    let mut active: usize = 0;
    let mut i: usize = 0;
    while i < jobs.len()
        invariant
            i <= jobs@.len(),
            active <= i,
            orig == jobs_view(jobs@),
            active == active_count(orig.subrange(0, i as int)),
        decreases jobs@.len() - i,
    {
        proof {
            assert(orig.subrange(0, i + 1).drop_last() =~= orig.subrange(0, i as int));
        }
        match jobs[i].status {
            JobStatus::Running | JobStatus::Pending => active += 1,
            _ => {},
        }
        i += 1;
    }
    proof {
        assert(orig.subrange(0, orig.len() as int) =~= orig);
    }
    let completed = jobs.len() - active;
    let target: usize = if active >= MAX_JOBS {
        0
    } else {
        MAX_JOBS - active
    };
    if completed > target {
        let mut remaining: usize = completed - target;
        let ghost n: nat = remaining as nat;
        let mut i: usize = jobs.len();
        proof {
            assert(jobs_view(jobs@).subrange(0, i as int) =~= orig);
            assert(orig.subrange(i as int, i as int) + Seq::<JobView>::empty() =~= Seq::<
                JobView,
            >::empty());
            assert(drop_last_removable(orig, n) + jobs_view(jobs@).subrange(i as int, i as int)
                =~= drop_last_removable(orig, n));
        }
        while i > 0
            invariant
                i <= jobs@.len(),
                drop_last_removable(orig, n) == drop_last_removable(
                    jobs_view(jobs@).subrange(0, i as int),
                    remaining as nat,
                ) + jobs_view(jobs@).subrange(i as int, jobs@.len() as int),
            decreases i,
        {
            let idx = i - 1;
            let ghost jv = jobs_view(jobs@);
            let ghost pre = jv.subrange(0, i as int);
            let ghost suffix = jv.subrange(i as int, jv.len() as int);
            proof {
                assert(pre.drop_last() =~= jv.subrange(0, idx as int));
                assert(pre.last() == jv[idx as int]);
                assert(jv.subrange(idx as int, jv.len() as int) =~= seq![jv[idx as int]] + suffix);
            }
            let removable = match jobs[idx].status {
                JobStatus::Completed | JobStatus::PartialSuccess | JobStatus::Failed => true,
                _ => false,
            };
            if remaining > 0 && removable {
                jobs.remove(idx);
                remaining -= 1;
                proof {
                    let jv2 = jobs_view(jobs@);
                    assert(jv2.subrange(0, idx as int) =~= jv.subrange(0, idx as int));
                    assert(jv2.subrange(idx as int, jv2.len() as int) =~= suffix);
                }
            } else {
                proof {
                    if remaining > 0 {
                        let d = drop_last_removable(jv.subrange(0, idx as int), remaining as nat);
                        assert(drop_last_removable(pre, remaining as nat) == d.push(jv[idx as int]));
                        assert(d.push(jv[idx as int]) + suffix =~= d + jv.subrange(
                            idx as int,
                            jv.len() as int,
                        ));
                    } else {
                        assert(jv.subrange(0, idx as int) + jv.subrange(idx as int, jv.len() as int)
                            =~= pre + suffix);
                    }
                }
            }
            i = idx;
        }
        proof {
            let jv = jobs_view(jobs@);
            assert(jv.subrange(0, 0) =~= Seq::<JobView>::empty());
            assert(jv.subrange(0, jv.len() as int) =~= jv);
            assert(Seq::<JobView>::empty() + jv =~= jv);
        }
    }
}

// ---------------------------------------------------------------------------
// Merging a refreshed snapshot
// ---------------------------------------------------------------------------

/// Row of the last job with this id, or -1.
pub open spec fn last_with_id(v: Seq<JobView>, id: i64) -> int
    decreases v.len(),
{
    if v.len() == 0 {
        -1
    } else if v.last().id == id {
        v.len() - 1
    } else {
        last_with_id(v.drop_last(), id)
    }
}

/// An earlier loaded job has the same id as the `k`-th.
pub open spec fn seen_before(loaded: Seq<JobView>, k: int) -> bool {
    exists|j: int| 0 <= j < k && #[trigger] loaded[j].id == loaded[k].id
}

/// The record already held for the `k`-th loaded job: the last current job
/// with its id, unless an earlier loaded job already took it.
pub open spec fn known_record(current: Seq<JobView>, loaded: Seq<JobView>, k: int) -> Option<
    JobView,
> {
    if seen_before(loaded, k) || last_with_id(current, loaded[k].id) < 0 {
        None
    } else {
        Some(current[last_with_id(current, loaded[k].id)])
    }
}

/// A loaded job, keeping what the list owns from the record it replaces:
/// violation details, an earlier backtest or failure list the refresh lacks,
/// an earlier start of a pending job, and a completion time.
pub open spec fn refreshed(new: JobView, known: Option<JobView>) -> JobView {
    match known {
        None => new,
        Some(o) => JobView {
            id: new.id,
            file_id: new.file_id,
            job_type: new.job_type,
            origin: new.origin,
            name: new.name,
            version: new.version,
            status: new.status,
            started_at: if new.status == JobStatus::Pending && o.started_at < new.started_at {
                o.started_at
            } else {
                new.started_at
            },
            completed_at: if new.completed_at is None && o.completed_at is Some {
                o.completed_at
            } else {
                new.completed_at
            },
            pipeline_run_id: new.pipeline_run_id,
            logical_date: new.logical_date,
            selection_snapshot_hash: new.selection_snapshot_hash,
            quarantine_rows: new.quarantine_rows,
            items_total: new.items_total,
            items_processed: new.items_processed,
            items_failed: new.items_failed,
            output_path: new.output_path,
            output_size_bytes: new.output_size_bytes,
            backtest: if new.backtest is None && o.backtest is Some {
                o.backtest
            } else {
                new.backtest
            },
            failures: if new.failures.len() == 0 && o.failures.len() > 0 && new.status
                == o.status {
                o.failures
            } else {
                new.failures
            },
            violations: o.violations,
            top_violations_loaded: o.top_violations_loaded,
            selected_violation_index: o.selected_violation_index,
        },
    }
}

/// The local (ephemeral) jobs of a list, in order.
pub open spec fn ephemeral_of(v: Seq<JobView>) -> Seq<JobView>
    decreases v.len(),
{
    if v.len() == 0 {
        v
    } else if v.last().origin == JobOrigin::Ephemeral {
        ephemeral_of(v.drop_last()).push(v.last())
    } else {
        ephemeral_of(v.drop_last())
    }
}

/// The list after a refresh, before trimming: the local jobs, then every
/// loaded job in the snapshot's order, refreshed against what was known.
pub open spec fn merged(current: Seq<JobView>, loaded: Seq<JobView>) -> Seq<JobView> {
    ephemeral_of(current) + Seq::new(
        loaded.len(),
        |k: int| refreshed(loaded[k], known_record(current, loaded, k)),
    )
}

proof fn lemma_last_with_id_range(v: Seq<JobView>, id: i64)
    ensures
        -1 <= last_with_id(v, id) < v.len(),
        last_with_id(v, id) >= 0 ==> v[last_with_id(v, id)].id == id,
    decreases v.len(),
{
    if v.len() > 0 {
        lemma_last_with_id_range(v.drop_last(), id);
    }
}

fn seen_earlier(loaded: &Vec<JobInfo>, k: usize) -> (r: bool)
    requires
        k < loaded@.len(),
    ensures
        r == seen_before(jobs_view(loaded@), k as int),
{
    let ghost lv = jobs_view(loaded@);
    let mut j: usize = 0;
    while j < k
        invariant
            j <= k,
            k < loaded@.len(),
            lv == jobs_view(loaded@),
            forall|q: int| 0 <= q < j ==> #[trigger] lv[q].id != lv[k as int].id,
        decreases k - j,
    {
        if loaded[j].id == loaded[k].id {
            proof {
                assert(lv[j as int].id == lv[k as int].id);
            }
            return true;
        }
        j += 1;
    }
    false
}

fn last_index_with_id(jobs: &Vec<JobInfo>, id: i64) -> (r: Option<usize>)
    ensures
        match r {
            Some(i) => i == last_with_id(jobs_view(jobs@), id) && i < jobs@.len(),
            None => last_with_id(jobs_view(jobs@), id) < 0,
        },
{
    let ghost jv = jobs_view(jobs@);
    let mut i: usize = jobs.len();
    proof {
        assert(jv.subrange(0, i as int) =~= jv);
    }
    while i > 0
        invariant
            i <= jobs@.len(),
            jv == jobs_view(jobs@),
            last_with_id(jv, id) == last_with_id(jv.subrange(0, i as int), id),
        decreases i,
    {
        let idx = i - 1;
        proof {
            assert(jv.subrange(0, i as int).drop_last() =~= jv.subrange(0, idx as int));
        }
        if jobs[idx].id == id {
            return Some(idx);
        }
        i = idx;
    }
    None
}

fn refresh_job(new_job: &JobInfo, known: Option<&JobInfo>) -> (r: JobInfo)
    ensures
        r.view() == refreshed(
            new_job.view(),
            match known {
                Some(o) => Some(o.view()),
                None => None,
            },
        ),
{
    let mut r = new_job.duplicate();
    if let Some(o) = known {
        r.violations = dup_violations(&o.violations);
        r.top_violations_loaded = o.top_violations_loaded;
        r.selected_violation_index = o.selected_violation_index;
        if r.backtest.is_none() && o.backtest.is_some() {
            r.backtest = o.backtest;
        }
        if r.failures.len() == 0 && o.failures.len() > 0 && r.status == o.status {
            r.failures = dup_failures(&o.failures);
        }
        if r.status == JobStatus::Pending && o.started_at < r.started_at {
            r.started_at = o.started_at;
        }
        if r.completed_at.is_none() && o.completed_at.is_some() {
            r.completed_at = o.completed_at;
        }
    }
    r
}

fn contains_job_id(jobs: &Vec<JobInfo>, id: i64) -> (r: bool)
    ensures
        r == (first_with_id(jobs@, id) >= 0),
{
    let mut k: usize = 0;
    while k < jobs.len()
        invariant
            k <= jobs@.len(),
            forall|q: int| 0 <= q < k ==> #[trigger] jobs@[q].id != id,
        decreases jobs@.len() - k,
    {
        if jobs[k].id == id {
            proof {
                lemma_first_with_id(jobs@, id, k as int);
            }
            return true;
        }
        k += 1;
    }
    proof {
        lemma_first_with_id(jobs@, id, k as int);
    }
    false
}

// ---------------------------------------------------------------------------
// Status-bar totals
// ---------------------------------------------------------------------------

/// Number of jobs satisfying `p`.
pub open spec fn count_where(v: Seq<JobView>, p: spec_fn(JobView) -> bool) -> nat
    decreases v.len(),
{
    if v.len() == 0 {
        0
    } else {
        count_where(v.drop_last(), p) + if p(v.last()) {
            1nat
        } else {
            0nat
        }
    }
}

/// Sum of `f` over the jobs.
pub open spec fn sum_of(v: Seq<JobView>, f: spec_fn(JobView) -> nat) -> nat
    decreases v.len(),
{
    if v.len() == 0 {
        0
    } else {
        sum_of(v.drop_last(), f) + f(v.last())
    }
}

pub open spec fn running_job(j: JobView) -> bool {
    j.status == JobStatus::Running
}

pub open spec fn done_job(j: JobView) -> bool {
    j.status == JobStatus::Completed || j.status == JobStatus::PartialSuccess
}

pub open spec fn failed_job(j: JobView) -> bool {
    j.status == JobStatus::Failed
}

pub open spec fn files_of(j: JobView) -> nat {
    j.items_processed as nat
}

pub open spec fn output_bytes_of(j: JobView) -> nat {
    match j.output_size_bytes {
        Some(b) => b as nat,
        None => 0,
    }
}

proof fn lemma_sum_prefix_le(v: Seq<JobView>, f: spec_fn(JobView) -> nat, i: int)
    requires
        0 <= i <= v.len(),
    ensures
        sum_of(v.subrange(0, i), f) <= sum_of(v, f),
    decreases v.len(),
{
    if i < v.len() {
        assert(v.drop_last().subrange(0, i) =~= v.subrange(0, i));
        lemma_sum_prefix_le(v.drop_last(), f, i);
    } else {
        assert(v.subrange(0, i) =~= v);
    }
}

impl JobsState {
    /// All fields but the job list agree.
    pub open spec fn same_but_jobs(&self, other: &JobsState) -> bool {
        &&& self.view_state == other.view_state
        &&& self.previous_view_state == other.previous_view_state
        &&& self.previous_mode == other.previous_mode
        &&& self.selected_index == other.selected_index
        &&& self.section_focus == other.section_focus
        &&& self.actionable_index == other.actionable_index
        &&& self.ready_index == other.ready_index
        &&& self.pinned_job_id == other.pinned_job_id
        &&& self.status_filter == other.status_filter
        &&& self.type_filter == other.type_filter
        &&& self.show_pipeline == other.show_pipeline
        &&& self.pipeline == other.pipeline
        &&& self.monitoring == other.monitoring
        &&& self.log_viewer_scroll == other.log_viewer_scroll
        &&& self.jobs_loaded == other.jobs_loaded
        &&& self.last_poll == other.last_poll
    }

    /// Totals for the status bar: running, done (completed or partial),
    /// failed, files processed, output bytes.
    pub fn aggregate_stats(&self) -> (r: (u32, u32, u32, u32, u64))
        requires
            self.jobs@.len() <= u32::MAX,
            sum_of(jobs_view(self.jobs@), |j: JobView| files_of(j)) <= u32::MAX,
            sum_of(jobs_view(self.jobs@), |j: JobView| output_bytes_of(j)) <= u64::MAX,
        ensures
            r.0 == count_where(jobs_view(self.jobs@), |j: JobView| running_job(j)),
            r.1 == count_where(jobs_view(self.jobs@), |j: JobView| done_job(j)),
            r.2 == count_where(jobs_view(self.jobs@), |j: JobView| failed_job(j)),
            r.3 == sum_of(jobs_view(self.jobs@), |j: JobView| files_of(j)),
            r.4 == sum_of(jobs_view(self.jobs@), |j: JobView| output_bytes_of(j)),
    {
        let ghost jv = jobs_view(self.jobs@);
        let ghost fr = |j: JobView| running_job(j);
        let ghost fd = |j: JobView| done_job(j);
        let ghost ff = |j: JobView| failed_job(j);
        let ghost sf = |j: JobView| files_of(j);
        let ghost sb = |j: JobView| output_bytes_of(j);
        let mut running: u32 = 0;
        let mut done: u32 = 0;
        let mut failed: u32 = 0;
        let mut total_files: u32 = 0;
        let mut total_output_bytes: u64 = 0;
        let mut i: usize = 0;
        while i < self.jobs.len()
            invariant
                i <= self.jobs@.len(),
                self.jobs@.len() <= u32::MAX,
                jv == jobs_view(self.jobs@),
                fr == (|j: JobView| running_job(j)),
                fd == (|j: JobView| done_job(j)),
                ff == (|j: JobView| failed_job(j)),
                sf == (|j: JobView| files_of(j)),
                sb == (|j: JobView| output_bytes_of(j)),
                sum_of(jv, sf) <= u32::MAX,
                sum_of(jv, sb) <= u64::MAX,
                running <= i && done <= i && failed <= i,
                running == count_where(jv.subrange(0, i as int), fr),
                done == count_where(jv.subrange(0, i as int), fd),
                failed == count_where(jv.subrange(0, i as int), ff),
                total_files == sum_of(jv.subrange(0, i as int), sf),
                total_output_bytes == sum_of(jv.subrange(0, i as int), sb),
            decreases self.jobs@.len() - i,
        {
            let job = &self.jobs[i];
            proof {
                let pre = jv.subrange(0, i + 1);
                assert(pre.drop_last() =~= jv.subrange(0, i as int));
                assert(pre.last() == job.view());
                lemma_sum_prefix_le(jv, sf, i + 1);
                lemma_sum_prefix_le(jv, sb, i + 1);
                assert(sf(job.view()) == job.items_processed as nat);
                assert(sum_of(pre, sf) == total_files + job.items_processed);
                assert(sb(job.view()) == output_bytes_of(job.view()));
                assert(sum_of(pre, sb) == total_output_bytes + sb(job.view()));
            }
            match job.status {
                JobStatus::Running => running += 1,
                JobStatus::Completed | JobStatus::PartialSuccess => done += 1,
                JobStatus::Failed => failed += 1,
                _ => {},
            }
            total_files += job.items_processed;
            if let Some(bytes) = job.output_size_bytes {
                total_output_bytes += bytes;
            }
            i += 1;
        }
        proof {
            assert(jv.subrange(0, jv.len() as int) =~= jv);
        }
        (running, done, failed, total_files, total_output_bytes)
    }

    /// Trims the oldest finished jobs once the list is over `MAX_JOBS`;
    /// running and pending jobs always stay.
    fn trim_completed_jobs(&mut self)
        ensures
            jobs_view(final(self).jobs@) == trimmed(jobs_view(old(self).jobs@)),
            final(self).same_but_jobs(old(self)),
    {
        trim_jobs(&mut self.jobs);
    }

    /// Adds a job at the front, then trims.
    pub fn push_job(&mut self, job: JobInfo)
        ensures
            jobs_view(final(self).jobs@) == trimmed(seq![job.view()] + jobs_view(old(self).jobs@)),
            final(self).same_but_jobs(old(self)),
    {
        let ghost jv = job.view();
        self.jobs.insert(0, job);
        proof {
            assert(jobs_view(self.jobs@) =~= seq![jv] + jobs_view(old(self).jobs@));
        }
        self.trim_completed_jobs();
    }

    /// Merges a loaded snapshot: local jobs stay, loaded jobs replace the
    /// records they refresh (keeping what the list owns), the list is
    /// trimmed, a pinned job that is gone is unpinned, and the selection is
    /// clamped.
    pub fn merge_loaded_jobs(&mut self, loaded: Vec<JobInfo>)
        ensures
            jobs_view(final(self).jobs@) == trimmed(
                merged(jobs_view(old(self).jobs@), jobs_view(loaded@)),
            ),
            final(self).pinned_job_id == (match old(self).pinned_job_id {
                Some(p) => if first_with_id(final(self).jobs@, p) >= 0 {
                    Some(p)
                } else {
                    None
                },
                None => None,
            }),
            final(self).status_filter == old(self).status_filter,
            final(self).type_filter == old(self).type_filter,
            final(self).section_focus == old(self).section_focus,
            final(self).view_state == old(self).view_state,
            final(self).previous_view_state == old(self).previous_view_state,
            final(self).actionable_index == clamped(
                if old(self).section_focus == JobsListSection::Actionable {
                    old(self).selected_index
                } else {
                    old(self).actionable_index
                },
                final(self).actionable_count() as usize,
            ),
            final(self).ready_index == clamped(
                if old(self).section_focus == JobsListSection::Ready {
                    old(self).selected_index
                } else {
                    old(self).ready_index
                },
                final(self).ready_count() as usize,
            ),
            final(self).selected_index == (match old(self).section_focus {
                JobsListSection::Actionable => final(self).actionable_index,
                JobsListSection::Ready => final(self).ready_index,
            }),
    {
        let ghost cur = jobs_view(self.jobs@);
        let ghost lv = jobs_view(loaded@);
        let mut next: Vec<JobInfo> = Vec::new();
        let mut i: usize = 0;
        while i < self.jobs.len()
            invariant
                i <= self.jobs@.len(),
                cur == jobs_view(self.jobs@),
                jobs_view(next@) == ephemeral_of(cur.subrange(0, i as int)),
            decreases self.jobs@.len() - i,
        {
            proof {
                assert(cur.subrange(0, i + 1).drop_last() =~= cur.subrange(0, i as int));
            }
            if self.jobs[i].origin == JobOrigin::Ephemeral {
                let d = self.jobs[i].duplicate();
                let ghost before = jobs_view(next@);
                next.push(d);
                proof {
                    assert(jobs_view(next@) =~= before.push(cur[i as int]));
                }
            }
            i += 1;
        }
        proof {
            assert(cur.subrange(0, cur.len() as int) =~= cur);
        }
        let ghost base = jobs_view(next@);
        let mut k: usize = 0;
        proof {
            assert(base + Seq::new(0nat, |q: int| refreshed(lv[q], known_record(cur, lv, q)))
                =~= base);
        }
        while k < loaded.len()
            invariant
                k <= loaded@.len(),
                cur == jobs_view(self.jobs@),
                lv == jobs_view(loaded@),
                jobs_view(next@) == base + Seq::new(
                    k as nat,
                    |q: int| refreshed(lv[q], known_record(cur, lv, q)),
                ),
            decreases loaded@.len() - k,
        {
            let seen = seen_earlier(&loaded, k);
            let known: Option<&JobInfo> = if seen {
                None
            } else {
                match last_index_with_id(&self.jobs, loaded[k].id) {
                    Some(idx) => Some(&self.jobs[idx]),
                    None => None,
                }
            };
            let nj = refresh_job(&loaded[k], known);
            proof {
                assert(nj.view() == refreshed(lv[k as int], known_record(cur, lv, k as int)));
            }
            let ghost before = jobs_view(next@);
            next.push(nj);
            proof {
                assert(jobs_view(next@) =~= before.push(nj.view()));
                assert(jobs_view(next@) =~= base + Seq::new(
                    (k + 1) as nat,
                    |q: int| refreshed(lv[q], known_record(cur, lv, q)),
                ));
            }
            k += 1;
        }
        proof {
            assert(jobs_view(next@) =~= merged(cur, lv));
        }
        self.jobs = next;
        self.trim_completed_jobs();
        if let Some(pinned) = self.pinned_job_id {
            if !contains_job_id(&self.jobs, pinned) {
                self.pinned_job_id = None;
            }
        }
        self.clamp_selection();
    }
}

// ---------------------------------------------------------------------------
// Laws
// ---------------------------------------------------------------------------

/// A refreshed job keeps its id and status; when the refresh reports
/// failures, those are the failures shown; any other failure list shown is
/// that of a job already in the list with the same id and status, and only
/// when the refresh reported none.
pub proof fn law_reported_failures_win(current: Seq<JobView>, loaded: Seq<JobView>, k: int)
    requires
        0 <= k < loaded.len(),
    ensures
        ({
            let m = merged(current, loaded)[ephemeral_of(current).len() + k];
            &&& m.id == loaded[k].id
            &&& m.status == loaded[k].status
            &&& loaded[k].failures.len() > 0 ==> m.failures == loaded[k].failures
            &&& m.failures != loaded[k].failures ==> loaded[k].failures.len() == 0 && exists|j: int|
                0 <= j < current.len() && #[trigger] current[j].id == loaded[k].id
                    && current[j].status == loaded[k].status && current[j].failures == m.failures
        }),
{
    let e = ephemeral_of(current);
    let tail = Seq::new(
        loaded.len(),
        |q: int| refreshed(loaded[q], known_record(current, loaded, q)),
    );
    assert(merged(current, loaded)[e.len() + k] == tail[k]);
    lemma_last_with_id_range(current, loaded[k].id);
    let j = last_with_id(current, loaded[k].id);
    if !seen_before(loaded, k) && j >= 0 {
        assert(current[j].id == loaded[k].id);
    }
}

proof fn lemma_drop_keeps_kept_part(v: Seq<JobView>, n: nat)
    ensures
        kept_part(drop_last_removable(v, n)) == kept_part(v),
    decreases v.len(),
{
    if n == 0 || v.len() == 0 {
    } else if is_removable(v.last().status) {
        lemma_drop_keeps_kept_part(v.drop_last(), (n - 1) as nat);
    } else {
        let d = drop_last_removable(v.drop_last(), n);
        lemma_drop_keeps_kept_part(v.drop_last(), n);
        assert(d.push(v.last()).drop_last() =~= d);
    }
}

/// Trimming never drops a running, pending or cancelled job, and keeps
/// those jobs in their order.
pub proof fn law_trim_keeps_unfinished(v: Seq<JobView>)
    ensures
        kept_part(trimmed(v)) == kept_part(v),
{
    if v.len() > MAX_JOBS {
        let active = active_count(v);
        let completed = v.len() - active;
        let target = if active >= MAX_JOBS {
            0
        } else {
            MAX_JOBS - active
        };
        if completed > target {
            lemma_drop_keeps_kept_part(v, (completed - target) as nat);
        }
    }
}

/// A list of at most `MAX_JOBS` jobs is left as it is.
pub proof fn law_trim_small_list_unchanged(v: Seq<JobView>)
    requires
        v.len() <= MAX_JOBS,
    ensures
        trimmed(v) == v,
{
}

proof fn lemma_drop_len(v: Seq<JobView>, n: nat)
    ensures
        drop_last_removable(v, n).len() == v.len() - (if n <= removable_count(v) {
            n
        } else {
            removable_count(v)
        }),
        removable_count(v) <= v.len(),
    decreases v.len(),
{
    if v.len() > 0 {
        lemma_drop_len(v.drop_last(), n);
        if n > 0 && is_removable(v.last().status) {
            lemma_drop_len(v.drop_last(), (n - 1) as nat);
        }
    }
}

proof fn lemma_active_removable_disjoint(v: Seq<JobView>)
    ensures
        active_count(v) + removable_count(v) <= v.len(),
    decreases v.len(),
{
    if v.len() > 0 {
        lemma_active_removable_disjoint(v.drop_last());
    }
}

/// When the list has grown past `MAX_JOBS` and holds enough finished jobs to
/// spare, trimming brings it back to exactly `MAX_JOBS` jobs.
pub proof fn law_trim_restores_bound(v: Seq<JobView>)
    requires
        v.len() > MAX_JOBS,
        removable_count(v) >= v.len() - MAX_JOBS,
    ensures
        trimmed(v).len() == MAX_JOBS,
{
    lemma_active_removable_disjoint(v);
    lemma_drop_len(v, (v.len() - MAX_JOBS) as nat);
}

proof fn lemma_kept_part_contains(v: Seq<JobView>, i: int)
    requires
        0 <= i < v.len(),
        !is_removable(v[i].status),
    ensures
        kept_part(v).contains(v[i]),
    decreases v.len(),
{
    if i == v.len() - 1 {
        assert(kept_part(v) == kept_part(v.drop_last()).push(v[i]));
        assert(kept_part(v)[kept_part(v).len() - 1] == v[i]);
    } else {
        assert(v.drop_last()[i] == v[i]);
        lemma_kept_part_contains(v.drop_last(), i);
        let k = kept_part(v.drop_last());
        let j = choose|j: int| 0 <= j < k.len() && k[j] == v[i];
        if !is_removable(v.last().status) {
            assert(kept_part(v)[j] == v[i]);
        }
    }
}

proof fn lemma_kept_part_within(v: Seq<JobView>, x: JobView)
    requires
        kept_part(v).contains(x),
    ensures
        v.contains(x),
    decreases v.len(),
{
    if v.len() > 0 {
        let k = kept_part(v);
        let j = choose|j: int| 0 <= j < k.len() && k[j] == x;
        if !is_removable(v.last().status) && j == k.len() - 1 {
            assert(v[v.len() - 1] == x);
        } else {
            assert(kept_part(v.drop_last())[j] == x);
            lemma_kept_part_within(v.drop_last(), x);
            let q = choose|q: int| 0 <= q < v.drop_last().len() && v.drop_last()[q] == x;
            assert(v[q] == x);
        }
    }
}

proof fn lemma_ephemeral_contains(v: Seq<JobView>, i: int)
    requires
        0 <= i < v.len(),
        v[i].origin == JobOrigin::Ephemeral,
    ensures
        ephemeral_of(v).contains(v[i]),
    decreases v.len(),
{
    if i == v.len() - 1 {
        let e = ephemeral_of(v);
        assert(e[e.len() - 1] == v[i]);
    } else {
        assert(v.drop_last()[i] == v[i]);
        lemma_ephemeral_contains(v.drop_last(), i);
        let e = ephemeral_of(v.drop_last());
        let j = choose|j: int| 0 <= j < e.len() && e[j] == v[i];
        if v.last().origin == JobOrigin::Ephemeral {
            assert(ephemeral_of(v)[j] == v[i]);
        }
    }
}

/// A refresh never loses a local job that is still running, pending or
/// cancelled: it is in the list afterwards, unchanged.
pub proof fn law_merge_keeps_local_jobs(current: Seq<JobView>, loaded: Seq<JobView>, i: int)
    requires
        0 <= i < current.len(),
        current[i].origin == JobOrigin::Ephemeral,
        !is_removable(current[i].status),
    ensures
        trimmed(merged(current, loaded)).contains(current[i]),
{
    let m = merged(current, loaded);
    lemma_ephemeral_contains(current, i);
    let e = ephemeral_of(current);
    let j = choose|j: int| 0 <= j < e.len() && e[j] == current[i];
    assert(m[j] == current[i]);
    lemma_kept_part_contains(m, j);
    law_trim_keeps_unfinished(m);
    lemma_kept_part_within(trimmed(m), current[i]);
}

/// A refresh never loses a loaded job that is running, pending or
/// cancelled: a job with its id and status is in the list afterwards.
pub proof fn law_merge_keeps_loaded_jobs(current: Seq<JobView>, loaded: Seq<JobView>, k: int)
    requires
        0 <= k < loaded.len(),
        !is_removable(loaded[k].status),
    ensures
        exists|x: JobView|
            #[trigger] trimmed(merged(current, loaded)).contains(x) && x.id == loaded[k].id
                && x.status == loaded[k].status,
{
    let m = merged(current, loaded);
    let e = ephemeral_of(current);
    let x = refreshed(loaded[k], known_record(current, loaded, k));
    assert(m[e.len() + k] == x);
    lemma_kept_part_contains(m, e.len() + k);
    law_trim_keeps_unfinished(m);
    lemma_kept_part_within(trimmed(m), x);
}

/// A refresh never moves the start of a pending job later than what was
/// known, and keeps known failures when the refresh has none for the same
/// status, and a known backtest when the refresh has none.
pub proof fn law_refresh_keeps_known_details(new: JobView, known: JobView)
    ensures
        new.status == JobStatus::Pending ==> refreshed(new, Some(known)).started_at <= known.started_at,
        new.failures.len() == 0 && new.status == known.status ==> refreshed(new, Some(known)).failures
            == known.failures,
        new.backtest is None ==> refreshed(new, Some(known)).backtest == known.backtest,
        refreshed(new, Some(known)).id == new.id && refreshed(new, Some(known)).status == new.status,
{
}

} // verus!

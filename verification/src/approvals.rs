//! The Approvals screen: approval records, the status filter, selection and
//! the expiry countdown.
use vstd::prelude::*;
use crate::clock::now_millis;
use crate::tabs::{clamp_index, clamped, TuiMode};
use crate::text::{decimal, push_str, str_eq, to_lowercase, u64_to_decimal, unicode_lower};

verus! {

/// View states within the Approvals screen.
#[derive(Debug, Clone, Copy, PartialEq, Eq, Structural)]
pub enum ApprovalsViewState {
    List,
    Detail,
    ConfirmApprove,
    ConfirmReject,
}

/// Filter on approval status.
#[derive(Debug, Clone, Copy, PartialEq, Eq, Structural)]
pub enum ApprovalStatusFilter {
    Pending,
    Approved,
    Rejected,
    Expired,
    All,
}

impl ApprovalStatusFilter {
    pub open spec fn text(self) -> Seq<char> {
        match self {
            ApprovalStatusFilter::Pending => "Pending"@,
            ApprovalStatusFilter::Approved => "Approved"@,
            ApprovalStatusFilter::Rejected => "Rejected"@,
            ApprovalStatusFilter::Expired => "Expired"@,
            ApprovalStatusFilter::All => "All"@,
        }
    }

    pub open spec fn next_spec(self) -> Self {
        match self {
            ApprovalStatusFilter::Pending => ApprovalStatusFilter::Approved,
            ApprovalStatusFilter::Approved => ApprovalStatusFilter::Rejected,
            ApprovalStatusFilter::Rejected => ApprovalStatusFilter::Expired,
            ApprovalStatusFilter::Expired => ApprovalStatusFilter::All,
            ApprovalStatusFilter::All => ApprovalStatusFilter::Pending,
        }
    }

    /// Display text of the filter.
    pub fn as_str(&self) -> (r: &'static str)
        ensures
            r@ == self.text(),
    {
        match self {
            ApprovalStatusFilter::Pending => "Pending",
            ApprovalStatusFilter::Approved => "Approved",
            ApprovalStatusFilter::Rejected => "Rejected",
            ApprovalStatusFilter::Expired => "Expired",
            ApprovalStatusFilter::All => "All",
        }
    }

    /// The next filter: pending, approved, rejected, expired, all, pending.
    pub fn next(&self) -> (r: Self)
        ensures
            r == self.next_spec(),
    {
        match self {
            ApprovalStatusFilter::Pending => ApprovalStatusFilter::Approved,
            ApprovalStatusFilter::Approved => ApprovalStatusFilter::Rejected,
            ApprovalStatusFilter::Rejected => ApprovalStatusFilter::Expired,
            ApprovalStatusFilter::Expired => ApprovalStatusFilter::All,
            ApprovalStatusFilter::All => ApprovalStatusFilter::Pending,
        }
    }
}

/// Cycling the filter five times returns to where it started.
pub proof fn law_approval_filter_cycle(f: ApprovalStatusFilter)
    ensures
        f.next_spec().next_spec().next_spec().next_spec().next_spec() == f,
{
}

impl Default for ApprovalStatusFilter {
    fn default() -> (r: Self)
        ensures
            r == ApprovalStatusFilter::Pending,
    {
        ApprovalStatusFilter::Pending
    }
}

/// Action awaiting confirmation.
#[derive(Debug, Clone, PartialEq, Eq, Structural)]
pub enum ApprovalAction {
    Approve,
    Reject,
}

/// Approval status for display.
#[derive(Debug, Clone, Copy, PartialEq, Eq, Structural)]
pub enum ApprovalDisplayStatus {
    Pending,
    Approved,
    Rejected,
    Expired,
}

impl ApprovalDisplayStatus {
    /// Status named by an already lowercased text; unknown text is pending.
    pub open spec fn from_lower_spec(s: Seq<char>) -> Self {
        if s == "approved"@ {
            ApprovalDisplayStatus::Approved
        } else if s == "rejected"@ {
            ApprovalDisplayStatus::Rejected
        } else if s == "expired"@ {
            ApprovalDisplayStatus::Expired
        } else {
            ApprovalDisplayStatus::Pending
        }
    }

    pub open spec fn symbol_spec(self) -> Seq<char> {
        match self {
            ApprovalDisplayStatus::Pending => "\u{25cb}"@,
            ApprovalDisplayStatus::Approved => "\u{2713}"@,
            ApprovalDisplayStatus::Rejected => "\u{2717}"@,
            ApprovalDisplayStatus::Expired => "\u{2298}"@,
        }
    }

    pub open spec fn text(self) -> Seq<char> {
        match self {
            ApprovalDisplayStatus::Pending => "pending"@,
            ApprovalDisplayStatus::Approved => "approved"@,
            ApprovalDisplayStatus::Rejected => "rejected"@,
            ApprovalDisplayStatus::Expired => "expired"@,
        }
    }

    pub open spec fn matches_spec(self, filter: ApprovalStatusFilter) -> bool {
        match filter {
            ApprovalStatusFilter::All => true,
            ApprovalStatusFilter::Pending => self == ApprovalDisplayStatus::Pending,
            ApprovalStatusFilter::Approved => self == ApprovalDisplayStatus::Approved,
            ApprovalStatusFilter::Rejected => self == ApprovalDisplayStatus::Rejected,
            ApprovalStatusFilter::Expired => self == ApprovalDisplayStatus::Expired,
        }
    }

    /// Status from lowercased text: "pending", "approved", "rejected",
    /// "expired"; anything else is pending.
    pub fn from_lowercased(lower: &str) -> (r: Self)
        ensures
            r == Self::from_lower_spec(lower@),
    {
        if str_eq(lower, "approved") {
            ApprovalDisplayStatus::Approved
        } else if str_eq(lower, "rejected") {
            ApprovalDisplayStatus::Rejected
        } else if str_eq(lower, "expired") {
            ApprovalDisplayStatus::Expired
        } else {
            ApprovalDisplayStatus::Pending
        }
    }

    /// Status from a stored value, read case-insensitively; unknown values
    /// are pending.
    pub fn from_db_str(s: &str) -> (r: Self)
        ensures
            r == Self::from_lower_spec(unicode_lower(s@)),
    {
        let lower = to_lowercase(s);
        Self::from_lowercased(lower.as_str())
    }

    /// Display symbol: ○ pending, ✓ approved, ✗ rejected, ⊘ expired.
    pub fn symbol(&self) -> (r: &'static str)
        ensures
            r@ == self.symbol_spec(),
    {
        match self {
            ApprovalDisplayStatus::Pending => "\u{25cb}",
            ApprovalDisplayStatus::Approved => "\u{2713}",
            ApprovalDisplayStatus::Rejected => "\u{2717}",
            ApprovalDisplayStatus::Expired => "\u{2298}",
        }
    }

    pub fn as_str(&self) -> (r: &'static str)
        ensures
            r@ == self.text(),
    {
        match self {
            ApprovalDisplayStatus::Pending => "pending",
            ApprovalDisplayStatus::Approved => "approved",
            ApprovalDisplayStatus::Rejected => "rejected",
            ApprovalDisplayStatus::Expired => "expired",
        }
    }

    /// Whether the status passes a filter; `All` passes everything.
    pub fn matches_filter(&self, filter: ApprovalStatusFilter) -> (r: bool)
        ensures
            r == self.matches_spec(filter),
    {
        match filter {
            ApprovalStatusFilter::All => true,
            ApprovalStatusFilter::Pending => *self == ApprovalDisplayStatus::Pending,
            ApprovalStatusFilter::Approved => *self == ApprovalDisplayStatus::Approved,
            ApprovalStatusFilter::Rejected => *self == ApprovalDisplayStatus::Rejected,
            ApprovalStatusFilter::Expired => *self == ApprovalDisplayStatus::Expired,
        }
    }
}

/// The display text of a status reads back as the same status.
pub proof fn law_approval_status_text_round_trip(s: ApprovalDisplayStatus)
    ensures
        ApprovalDisplayStatus::from_lower_spec(s.text()) == s,
{
    reveal_strlit("pending");
    reveal_strlit("approved");
    reveal_strlit("rejected");
    reveal_strlit("expired");
    assert("pending"@[0] != "approved"@[0]);
    assert("pending"@[0] != "rejected"@[0]);
    assert("pending"@[0] != "expired"@[0]);
    assert("approved"@[0] != "rejected"@[0]);
    assert("approved"@[0] != "expired"@[0]);
    assert("rejected"@[0] != "expired"@[0]);
}

/// Operation awaiting approval.
#[derive(Debug, Clone, Copy, PartialEq, Eq, Structural)]
pub enum ApprovalOperationType {
    Run,
    SchemaPromote,
}

impl ApprovalOperationType {
    /// Operation named by already lowercased text; unknown text is a run.
    pub open spec fn from_lower_spec(s: Seq<char>) -> Self {
        if s == "schema_promote"@ || s == "schemapromote"@ {
            ApprovalOperationType::SchemaPromote
        } else {
            ApprovalOperationType::Run
        }
    }

    pub open spec fn text(self) -> Seq<char> {
        match self {
            ApprovalOperationType::Run => "Run"@,
            ApprovalOperationType::SchemaPromote => "SchemaPromote"@,
        }
    }

    /// Operation from lowercased text: "schema_promote" or "schemapromote"
    /// promote a schema; anything else is a run.
    pub fn from_lowercased(lower: &str) -> (r: Self)
        ensures
            r == Self::from_lower_spec(lower@),
    {
        if str_eq(lower, "schema_promote") || str_eq(lower, "schemapromote") {
            ApprovalOperationType::SchemaPromote
        } else {
            ApprovalOperationType::Run
        }
    }

    /// Operation from a stored value, read case-insensitively; unknown
    /// values are runs.
    pub fn from_db_str(s: &str) -> (r: Self)
        ensures
            r == Self::from_lower_spec(unicode_lower(s@)),
    {
        let lower = to_lowercase(s);
        Self::from_lowercased(lower.as_str())
    }

    pub fn as_str(&self) -> (r: &'static str)
        ensures
            r@ == self.text(),
    {
        match self {
            ApprovalOperationType::Run => "Run",
            ApprovalOperationType::SchemaPromote => "SchemaPromote",
        }
    }
}

/// An approval request; times are milliseconds since the Unix epoch.
#[derive(Debug, Clone)]
pub struct ApprovalInfo {
    pub id: String,
    pub operation_type: ApprovalOperationType,
    pub plugin_ref: String,
    pub summary: String,
    pub status: ApprovalDisplayStatus,
    pub created_at: i64,
    pub expires_at: i64,
    /// File count (runs only)
    pub file_count: Option<u32>,
    /// Input directory (runs only)
    pub input_dir: Option<String>,
    /// Job started for an approved request
    pub job_id: Option<String>,
}

/// Countdown text for a number of whole seconds: "45s", "12m", "3h5m".
pub open spec fn countdown_text(secs: nat) -> Seq<char> {
    if secs < 60 {
        decimal(secs) + "s"@
    } else if secs < 3600 {
        decimal(secs / 60) + "m"@
    } else {
        decimal(secs / 3600) + "h"@ + decimal((secs % 3600) / 60) + "m"@
    }
}

impl ApprovalInfo {
    /// Milliseconds left before expiry at time `now_ms`: none unless the
    /// request is pending and not yet expired.
    pub open spec fn remaining_ms(&self, now_ms: i64) -> Option<nat> {
        if self.status != ApprovalDisplayStatus::Pending || self.expires_at <= now_ms {
            None
        } else {
            Some((self.expires_at - now_ms) as nat)
        }
    }

    pub open spec fn countdown_spec(&self, now_ms: i64) -> Seq<char> {
        match self.remaining_ms(now_ms) {
            Some(ms) => countdown_text(ms / 1000),
            None => if self.status == ApprovalDisplayStatus::Pending {
                "expired"@
            } else {
                "-"@
            },
        }
    }

    pub fn status_symbol(&self) -> (r: &'static str)
        ensures
            r@ == self.status.symbol_spec(),
    {
        self.status.symbol()
    }

    pub fn is_pending(&self) -> (r: bool)
        ensures
            r == (self.status == ApprovalDisplayStatus::Pending),
    {
        self.status == ApprovalDisplayStatus::Pending
    }

    /// Time until expiry at `now_ms`, in milliseconds.
    pub fn time_until_expiry_at(&self, now_ms: i64) -> (r: Option<u64>)
        ensures
            match r {
                Some(ms) => self.remaining_ms(now_ms) == Some(ms as nat),
                None => self.remaining_ms(now_ms) is None,
            },
    {
        if self.status != ApprovalDisplayStatus::Pending {
            return None;
        }
        if self.expires_at <= now_ms {
            None
        } else {
            let diff: i128 = self.expires_at as i128 - now_ms as i128;
            Some(diff as u64)
        }
    }

    /// Time until expiry from now, in milliseconds: none unless pending and
    /// not yet expired.
    pub fn time_until_expiry(&self) -> (r: Option<u64>)
        ensures
            self.status != ApprovalDisplayStatus::Pending ==> r is None,
            r matches Some(ms) ==> exists|now: i64| #[trigger] self.remaining_ms(now) == Some(ms as nat),
    {
        self.time_until_expiry_at(now_millis())
    }

    /// Countdown shown at `now_ms`: seconds, minutes or hours and minutes
    /// left; "expired" for an expired pending request, "-" otherwise.
    pub fn expiry_countdown_at(&self, now_ms: i64) -> (r: String)
        ensures
            r@ == self.countdown_spec(now_ms),
    {
        match self.time_until_expiry_at(now_ms) {
            Some(ms) => {
                let total_secs = ms / 1000;
                if total_secs < 60 {
                    let mut s = u64_to_decimal(total_secs);
                    push_str(&mut s, "s");
                    s
                } else if total_secs < 3600 {
                    let mut s = u64_to_decimal(total_secs / 60);
                    push_str(&mut s, "m");
                    s
                } else {
                    let mut s = u64_to_decimal(total_secs / 3600);
                    push_str(&mut s, "h");
                    let m = u64_to_decimal((total_secs % 3600) / 60);
                    push_str(&mut s, m.as_str());
                    push_str(&mut s, "m");
                    s
                }
            },
            None => {
                if self.status == ApprovalDisplayStatus::Pending {
                    crate::text::owned("expired")
                } else {
                    crate::text::owned("-")
                }
            },
        }
    }

    /// Countdown shown now.
    pub fn expiry_countdown(&self) -> (r: String)
        ensures
            exists|now: i64| #[trigger] self.countdown_spec(now) == r@,
    {
        self.expiry_countdown_at(now_millis())
    }
}

/// The approvals that pass a filter, in order.
pub open spec fn matching_approvals(v: Seq<ApprovalInfo>, f: ApprovalStatusFilter) -> Seq<
    ApprovalInfo,
>
    decreases v.len(),
{
    if v.len() == 0 {
        v
    } else if v.last().status.matches_spec(f) {
        matching_approvals(v.drop_last(), f).push(v.last())
    } else {
        matching_approvals(v.drop_last(), f)
    }
}

/// Number of approvals with a status.
pub open spec fn status_count(v: Seq<ApprovalInfo>, s: ApprovalDisplayStatus) -> nat
    decreases v.len(),
{
    if v.len() == 0 {
        0
    } else {
        status_count(v.drop_last(), s) + if v.last().status == s {
            1nat
        } else {
            0nat
        }
    }
}

/// Row of the first approval with this id, or -1.
pub open spec fn first_approval_with_id(v: Seq<ApprovalInfo>, id: Seq<char>) -> int
    decreases v.len(),
{
    if v.len() == 0 {
        -1
    } else if v[0].id@ == id {
        0
    } else {
        let r = first_approval_with_id(v.drop_first(), id);
        if r >= 0 {
            r + 1
        } else {
            -1
        }
    }
}

proof fn lemma_first_approval(v: Seq<ApprovalInfo>, id: Seq<char>, k: int)
    requires
        0 <= k <= v.len(),
        forall|q: int| 0 <= q < k ==> #[trigger] v[q].id@ != id,
    ensures
        k < v.len() && v[k].id@ == id ==> first_approval_with_id(v, id) == k,
        k == v.len() ==> first_approval_with_id(v, id) == -1,
    decreases k,
{
    if k > 0 {
        assert forall|q: int| 0 <= q < k - 1 implies #[trigger] v.drop_first()[q].id@ != id by {
            assert(v.drop_first()[q] == v[q + 1]);
        }
        lemma_first_approval(v.drop_first(), id, k - 1);
    }
}

/// State of the Approvals screen.
#[derive(Debug, Clone)]
pub struct ApprovalsState {
    pub view_state: ApprovalsViewState,
    pub approvals: Vec<ApprovalInfo>,
    pub selected_index: usize,
    pub filter: ApprovalStatusFilter,
    /// Pinned approval for the details panel
    pub pinned_approval_id: Option<String>,
    /// Action being confirmed
    pub confirm_action: Option<ApprovalAction>,
    pub rejection_reason: String,
    pub approvals_loaded: bool,
    pub previous_mode: Option<TuiMode>,
}

impl ApprovalsState {
    pub open spec fn filtered_spec(&self) -> Seq<ApprovalInfo> {
        matching_approvals(self.approvals@, self.filter)
    }

    pub open spec fn pinned_row(&self) -> int {
        match self.pinned_approval_id {
            Some(p) => first_approval_with_id(self.approvals@, p@),
            None => -1,
        }
    }

    /// Approvals passing the filter, in order.
    pub fn filtered_approvals(&self) -> (r: Vec<&ApprovalInfo>)
        ensures
            r@.len() == self.filtered_spec().len(),
            forall|p: int| 0 <= p < r@.len() ==> *r@[p] == self.filtered_spec()[p],
    {
        let mut r: Vec<&ApprovalInfo> = Vec::new();
        let mut i: usize = 0;
        while i < self.approvals.len()
            invariant
                i <= self.approvals@.len(),
                r@.len() == matching_approvals(self.approvals@.subrange(0, i as int), self.filter).len(),
                forall|p: int|
                    0 <= p < r@.len() ==> *r@[p] == matching_approvals(
                        self.approvals@.subrange(0, i as int),
                        self.filter,
                    )[p],
            decreases self.approvals@.len() - i,
        {
            proof {
                assert(self.approvals@.subrange(0, i + 1).drop_last() =~= self.approvals@.subrange(
                    0,
                    i as int,
                ));
            }
            let a = &self.approvals[i];
            if a.status.matches_filter(self.filter) {
                r.push(a);
            }
            i += 1;
        }
        proof {
            assert(self.approvals@.subrange(0, self.approvals@.len() as int) =~= self.approvals@);
        }
        r
    }

    /// The pinned approval if it is still listed, else the selected row of
    /// the filtered list.
    pub fn selected_approval(&self) -> (r: Option<&ApprovalInfo>)
        ensures
            self.pinned_row() >= 0 ==> (r matches Some(a) && *a == self.approvals@[self.pinned_row()]),
            self.pinned_row() < 0 && self.selected_index < self.filtered_spec().len() ==> (r matches Some(a)
                && *a == self.filtered_spec()[self.selected_index as int]),
            self.pinned_row() < 0 && self.selected_index >= self.filtered_spec().len() ==> r is None,
    {
        if let Some(pinned_id) = &self.pinned_approval_id {
            let mut k: usize = 0;
            while k < self.approvals.len()
                invariant
                    k <= self.approvals@.len(),
                    self.pinned_approval_id == Some(*pinned_id),
                    forall|q: int| 0 <= q < k ==> #[trigger] self.approvals@[q].id@ != pinned_id@,
                decreases self.approvals@.len() - k,
            {
                if str_eq(self.approvals[k].id.as_str(), pinned_id.as_str()) {
                    proof {
                        lemma_first_approval(self.approvals@, pinned_id@, k as int);
                    }
                    return Some(&self.approvals[k]);
                }
                k += 1;
            }
            proof {
                lemma_first_approval(self.approvals@, pinned_id@, k as int);
            }
        }
        let filtered = self.filtered_approvals();
        if self.selected_index < filtered.len() {
            Some(filtered[self.selected_index])
        } else {
            None
        }
    }

    /// Clamps the selection to the filtered list.
    pub fn clamp_selection(&mut self)
        ensures
            final(self).selected_index == clamped(
                old(self).selected_index,
                old(self).filtered_spec().len() as usize,
            ),
            *final(self) == (ApprovalsState { selected_index: final(self).selected_index, ..*old(self) }),
            final(self).approvals == old(self).approvals,
            final(self).filter == old(self).filter,
            final(self).pinned_approval_id == old(self).pinned_approval_id,
            final(self).view_state == old(self).view_state,
    {
        let count = self.filtered_approvals().len();
        self.selected_index = clamp_index(self.selected_index, count);
    }

    /// Counts of pending, approved, rejected and expired approvals.
    pub fn stats(&self) -> (r: (usize, usize, usize, usize))
        ensures
            r.0 == status_count(self.approvals@, ApprovalDisplayStatus::Pending),
            r.1 == status_count(self.approvals@, ApprovalDisplayStatus::Approved),
            r.2 == status_count(self.approvals@, ApprovalDisplayStatus::Rejected),
            r.3 == status_count(self.approvals@, ApprovalDisplayStatus::Expired),
    {
        let mut pending: usize = 0;
        let mut approved: usize = 0;
        let mut rejected: usize = 0;
        let mut expired: usize = 0;
        let mut i: usize = 0;
        while i < self.approvals.len()
            invariant
                i <= self.approvals@.len(),
                pending <= i && approved <= i && rejected <= i && expired <= i,
                pending == status_count(
                    self.approvals@.subrange(0, i as int),
                    ApprovalDisplayStatus::Pending,
                ),
                approved == status_count(
                    self.approvals@.subrange(0, i as int),
                    ApprovalDisplayStatus::Approved,
                ),
                rejected == status_count(
                    self.approvals@.subrange(0, i as int),
                    ApprovalDisplayStatus::Rejected,
                ),
                expired == status_count(
                    self.approvals@.subrange(0, i as int),
                    ApprovalDisplayStatus::Expired,
                ),
            decreases self.approvals@.len() - i,
        {
            proof {
                assert(self.approvals@.subrange(0, i + 1).drop_last() =~= self.approvals@.subrange(
                    0,
                    i as int,
                ));
            }
            match self.approvals[i].status {
                ApprovalDisplayStatus::Pending => pending += 1,
                ApprovalDisplayStatus::Approved => approved += 1,
                ApprovalDisplayStatus::Rejected => rejected += 1,
                ApprovalDisplayStatus::Expired => expired += 1,
            }
            i += 1;
        }
        proof {
            assert(self.approvals@.subrange(0, self.approvals@.len() as int) =~= self.approvals@);
        }
        (pending, approved, rejected, expired)
    }
}

impl Default for ApprovalsState {
    /// The list view with no approvals, filtered to pending ones.
    fn default() -> (r: Self)
        ensures
            r.view_state == ApprovalsViewState::List,
            r.approvals@.len() == 0,
            r.selected_index == 0,
            r.filter == ApprovalStatusFilter::Pending,
            r.pinned_approval_id is None,
            r.confirm_action is None,
            r.rejection_reason@.len() == 0,
            !r.approvals_loaded,
            r.previous_mode is None,
    {
        ApprovalsState {
            view_state: ApprovalsViewState::List,
            approvals: Vec::new(),
            selected_index: 0,
            filter: ApprovalStatusFilter::Pending,
            pinned_approval_id: None,
            confirm_action: None,
            rejection_reason: String::new(),
            approvals_loaded: false,
            previous_mode: None,
        }
    }
}

/// Every approval falls in exactly one of the four status counts.
pub proof fn law_approval_stats_partition(v: Seq<ApprovalInfo>)
    ensures
        status_count(v, ApprovalDisplayStatus::Pending) + status_count(v, ApprovalDisplayStatus::Approved)
            + status_count(v, ApprovalDisplayStatus::Rejected) + status_count(
            v,
            ApprovalDisplayStatus::Expired,
        ) == v.len(),
    decreases v.len(),
{
    if v.len() > 0 {
        law_approval_stats_partition(v.drop_last());
    }
}

/// The filter `All` keeps every approval.
pub proof fn law_filter_all_keeps_everything(v: Seq<ApprovalInfo>)
    ensures
        matching_approvals(v, ApprovalStatusFilter::All) == v,
    decreases v.len(),
{
    if v.len() > 0 {
        law_filter_all_keeps_everything(v.drop_last());
        assert(matching_approvals(v.drop_last(), ApprovalStatusFilter::All).push(v.last()) =~= v);
    }
}

} // verus!

//! Starting the bulk tag operations that the control service carries out:
//! tagging the previewed paths by hand, and applying a rule to a source.
//! Each first checks that it can go ahead and says why not on the status
//! line; when it can, it names what to send and reports that it started.
use vstd::prelude::*;
use crate::backend::BackendRouter;
use crate::discover_state::DiscoverState;
use crate::text::{concat2, owned, push_str, u64_to_decimal, decimal};

verus! {

/// Where a bulk tag operation goes.
#[derive(Debug, Clone, Copy, PartialEq, Eq, Structural)]
pub struct ApplyTarget {
    pub workspace_id: u128,
    pub source_id: i64,
}

/// The source an operation works on: the selected one, else the first
/// listed, if any.
pub open spec fn acting_source(d: DiscoverState) -> Option<i64> {
    match d.selected_source_id {
        Some(id) => Some(id),
        None => if d.sources@.len() > 0 {
            Some(d.sources@[0].id)
        } else {
            None
        },
    }
}

/// Why a manual tagging cannot start, in the order it is checked; `None`
/// when it can.
pub open spec fn tag_apply_refusal(
    d: DiscoverState,
    workspace_id: Option<u128>,
    n_paths: nat,
    control_connected: bool,
    in_progress: bool,
    has_control_addr: bool,
) -> Option<Seq<char>> {
    if workspace_id is None {
        Some("No workspace selected; cannot apply tags"@)
    } else if acting_source(d) is None {
        Some("No source selected; cannot apply tags"@)
    } else if n_paths == 0 {
        Some("No preview results to tag"@)
    } else if !control_connected {
        Some("Sentinel not connected; cannot apply tags"@)
    } else if in_progress {
        Some("Tagging already in progress"@)
    } else if !has_control_addr {
        Some("Control API address not configured"@)
    } else {
        None
    }
}

/// Why applying a rule cannot start, in the order it is checked (a blocked
/// write first); `None` when it can.
pub open spec fn rule_apply_refusal(
    d: DiscoverState,
    router: BackendRouter,
    workspace_id: Option<u128>,
    control_connected: bool,
    in_progress: bool,
) -> Option<Seq<char>> {
    if router.blocked_spec(control_connected) {
        Some(router.blocked_text("apply rules"@))
    } else if workspace_id is None {
        Some("No workspace selected; cannot apply rules"@)
    } else if acting_source(d) is None {
        Some("No source selected; cannot apply rules"@)
    } else if !control_connected {
        Some("Sentinel not connected; cannot apply rules"@)
    } else if in_progress {
        Some("Rule apply already in progress"@)
    } else if router.control_addr is None {
        Some("Control API address not configured"@)
    } else {
        None
    }
}

/// The status line holds this message and error flag.
pub open spec fn status_says(status: Option<(String, bool)>, text: Seq<char>, error: bool) -> bool {
    match status {
        Some(p) => p.0@ == text && p.1 == error,
        None => false,
    }
}

impl DiscoverState {
    fn acting_source_id(&self) -> (r: Option<i64>)
        ensures
            r == acting_source(*self),
    {
        match self.selected_source_id {
            Some(id) => Some(id),
            None => if self.sources.len() > 0 {
                Some(self.sources[0].id)
            } else {
                None
            },
        }
    }

    /// Starts tagging `n_paths` previewed paths with `tag` by hand. When it
    /// cannot start (see `tag_apply_refusal`) the status line says why and
    /// nothing is sent; else the status line says "Tagging {n} files with
    /// '{tag}'" and the target is returned.
    pub fn begin_tag_apply(
        &mut self,
        workspace_id: Option<u128>,
        n_paths: usize,
        tag: &str,
        control_connected: bool,
        in_progress: bool,
        has_control_addr: bool,
    ) -> (r: Option<ApplyTarget>)
        ensures
            *final(self) == (DiscoverState { status_message: final(self).status_message, ..*old(self) }),
            match tag_apply_refusal(*old(self), workspace_id, n_paths as nat, control_connected, in_progress, has_control_addr) {
                Some(why) => r is None && status_says(final(self).status_message, why, true),
                None => r == Some(ApplyTarget {
                    workspace_id: workspace_id->0,
                    source_id: acting_source(*old(self))->0,
                }) && status_says(
                    final(self).status_message,
                    "Tagging "@ + decimal(n_paths as nat) + " files with '"@ + tag@ + "'"@,
                    false,
                ),
            },
    {
        let ws = match workspace_id {
            Some(w) => w,
            None => {
                self.status_message = Some((owned("No workspace selected; cannot apply tags"), true));
                return None;
            },
        };
        let source_id = match self.acting_source_id() {
            Some(s) => s,
            None => {
                self.status_message = Some((owned("No source selected; cannot apply tags"), true));
                return None;
            },
        };
        if n_paths == 0 {
            self.status_message = Some((owned("No preview results to tag"), true));
            return None;
        }
        if !control_connected {
            self.status_message = Some((owned("Sentinel not connected; cannot apply tags"), true));
            return None;
        }
        if in_progress {
            self.status_message = Some((owned("Tagging already in progress"), true));
            return None;
        }
        if !has_control_addr {
            self.status_message = Some((owned("Control API address not configured"), true));
            return None;
        }
        let mut m = owned("Tagging ");
        let count = u64_to_decimal(n_paths as u64);
        push_str(&mut m, count.as_str());
        push_str(&mut m, " files with '");
        push_str(&mut m, tag);
        push_str(&mut m, "'");
        self.status_message = Some((m, false));
        Some(ApplyTarget { workspace_id: ws, source_id })
    }

    /// Starts applying a rule (`pattern` → `tag`) to a source. When it cannot start (see `rule_apply_refusal`)
    /// the status line says why, a blocked write also as the scan error,
    /// and nothing is sent; else the status line says "Applying rule:
    /// {pattern} → {tag}" and the target is returned.
    pub fn begin_rule_apply(
        &mut self,
        router: &BackendRouter,
        control_connected: bool,
        workspace_id: Option<u128>,
        pattern: &str,
        tag: &str,
        in_progress: bool,
    ) -> (r: Option<ApplyTarget>)
        ensures
            router.blocked_spec(control_connected) ==> (final(self).scan_error matches Some(e) && e@
                == router.blocked_text("apply rules"@)),
            *final(self) == (DiscoverState {
                status_message: final(self).status_message,
                scan_error: final(self).scan_error,
                ..*old(self)
            }),
            !router.blocked_spec(control_connected) ==> final(self).scan_error == old(self).scan_error,
            match rule_apply_refusal(*old(self), *router, workspace_id, control_connected, in_progress) {
                Some(why) => r is None && status_says(final(self).status_message, why, true),
                None => r == Some(ApplyTarget {
                    workspace_id: workspace_id->0,
                    source_id: acting_source(*old(self))->0,
                }) && status_says(
                    final(self).status_message,
                    "Applying rule: "@ + pattern@ + " \u{2192} "@ + tag@,
                    false,
                ),
            },
    {
        if router.mutations_blocked(control_connected) {
            let message = router.blocked_message("apply rules");
            self.scan_error = Some(owned(message.as_str()));
            self.status_message = Some((message, true));
            return None;
        }
        let ws = match workspace_id {
            Some(w) => w,
            None => {
                self.status_message = Some((owned("No workspace selected; cannot apply rules"), true));
                return None;
            },
        };
        let source_id = match self.acting_source_id() {
            Some(s) => s,
            None => {
                self.status_message = Some((owned("No source selected; cannot apply rules"), true));
                return None;
            },
        };
        if !control_connected {
            self.status_message = Some((owned("Sentinel not connected; cannot apply rules"), true));
            return None;
        }
        if in_progress {
            self.status_message = Some((owned("Rule apply already in progress"), true));
            return None;
        }
        if router.control_addr.is_none() {
            self.status_message = Some((owned("Control API address not configured"), true));
            return None;
        }
        let mut m = concat2("Applying rule: ", pattern);
        push_str(&mut m, " \u{2192} ");
        push_str(&mut m, tag);
        self.status_message = Some((m, false));
        Some(ApplyTarget { workspace_id: ws, source_id })
    }
}

} // verus!

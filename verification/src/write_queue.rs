//! The queued writes of the Discover screen and when they are handed over
//! for storing: all at once, through the control service when it is
//! connected, else straight to the database when local writes are allowed.
use vstd::prelude::*;
use crate::discover::{
    PendingRuleDelete, PendingRuleUpdate, PendingRuleWrite, PendingSourceCreate,
    PendingSourceDelete, PendingSourceUpdate, PendingTagWrite,
};
use crate::discover_state::DiscoverState;
use crate::text::owned;

verus! {

/// The queued writes taken over for storing in one go.
#[derive(Debug)]
pub struct PendingWrites {
    pub tag_writes: Vec<PendingTagWrite>,
    pub rule_writes: Vec<PendingRuleWrite>,
    pub rule_updates: Vec<PendingRuleUpdate>,
    pub rule_deletes: Vec<PendingRuleDelete>,
    pub source_creates: Vec<PendingSourceCreate>,
    pub source_updates: Vec<PendingSourceUpdate>,
    pub source_deletes: Vec<PendingSourceDelete>,
    pub source_touch: Option<i64>,
}

/// Anything is queued for storing.
pub open spec fn has_pending(d: DiscoverState) -> bool {
    ||| d.pending_tag_writes@.len() > 0
    ||| d.pending_rule_writes@.len() > 0
    ||| d.pending_rule_updates@.len() > 0
    ||| d.pending_rule_deletes@.len() > 0
    ||| d.pending_source_creates@.len() > 0
    ||| d.pending_source_updates@.len() > 0
    ||| d.pending_source_deletes@.len() > 0
    ||| d.pending_source_touch is Some
}

/// `w` holds exactly what `d` had queued.
pub open spec fn took_all(w: PendingWrites, d: DiscoverState) -> bool {
    &&& w.tag_writes@ == d.pending_tag_writes@
    &&& w.rule_writes@ == d.pending_rule_writes@
    &&& w.rule_updates@ == d.pending_rule_updates@
    &&& w.rule_deletes@ == d.pending_rule_deletes@
    &&& w.source_creates@ == d.pending_source_creates@
    &&& w.source_updates@ == d.pending_source_updates@
    &&& w.source_deletes@ == d.pending_source_deletes@
    &&& w.source_touch == d.pending_source_touch
}

/// Nothing is queued any more, and nothing else changed.
pub open spec fn emptied(new: DiscoverState, old: DiscoverState) -> bool {
    &&& new.pending_tag_writes@.len() == 0
    &&& new.pending_rule_writes@.len() == 0
    &&& new.pending_rule_updates@.len() == 0
    &&& new.pending_rule_deletes@.len() == 0
    &&& new.pending_source_creates@.len() == 0
    &&& new.pending_source_updates@.len() == 0
    &&& new.pending_source_deletes@.len() == 0
    &&& new.pending_source_touch is None
    &&& new == (DiscoverState {
        pending_tag_writes: new.pending_tag_writes,
        pending_rule_writes: new.pending_rule_writes,
        pending_rule_updates: new.pending_rule_updates,
        pending_rule_deletes: new.pending_rule_deletes,
        pending_source_creates: new.pending_source_creates,
        pending_source_updates: new.pending_source_updates,
        pending_source_deletes: new.pending_source_deletes,
        pending_source_touch: None,
        ..old
    })
}

/// The message when local writes are not allowed and the control service
/// is not reachable.
pub open spec fn unsaved_message() -> Seq<char> {
    "Sentinel not reachable; changes are not saved (use --standalone-writer to allow local writes)"@
}

/// What happens to the queue when the control service is not connected.
#[derive(Debug)]
pub enum LocalWrites {
    /// Nothing was queued
    Nothing,
    /// Writes are blocked: the message, also shown as the scan error and in
    /// the header; the queue stays
    Blocked(String),
    /// These writes go to the database now
    Write(PendingWrites),
}

/// The name a rule is stored under: "{pattern} → {tag}".
pub fn rule_name(pattern: &str, tag: &str) -> (r: String)
    ensures
        r@ == pattern@ + " \u{2192} "@ + tag@,
{
    crate::text::concat3(pattern, " \u{2192} ", tag)
}

impl PendingWrites {
    /// The writes change the list of sources.
    pub fn sources_changed(&self) -> (r: bool)
        ensures
            r == (self.source_creates@.len() > 0 || self.source_updates@.len() > 0
                || self.source_deletes@.len() > 0 || self.source_touch is Some),
    {
        self.source_creates.len() > 0 || self.source_updates.len() > 0 || self.source_deletes.len() > 0
            || self.source_touch.is_some()
    }
}

impl DiscoverState {
    /// See `has_pending`.
    pub fn has_pending_writes(&self) -> (r: bool)
        ensures
            r == has_pending(*self),
    {
        self.pending_tag_writes.len() > 0 || self.pending_rule_writes.len() > 0
            || self.pending_rule_updates.len() > 0 || self.pending_rule_deletes.len() > 0
            || self.pending_source_creates.len() > 0 || self.pending_source_updates.len() > 0 || self.pending_source_deletes.len() > 0
            || self.pending_source_touch.is_some()
    }

    /// Takes every queued write, leaving the queues empty.
    pub fn take_pending_writes(&mut self) -> (r: PendingWrites)
        ensures
            took_all(r, *old(self)),
            emptied(*final(self), *old(self)),
    {
        let mut tag_writes = Vec::new();
        std::mem::swap(&mut tag_writes, &mut self.pending_tag_writes);
        let mut rule_writes = Vec::new();
        std::mem::swap(&mut rule_writes, &mut self.pending_rule_writes);
        let mut rule_updates = Vec::new();
        std::mem::swap(&mut rule_updates, &mut self.pending_rule_updates);
        let mut rule_deletes = Vec::new();
        std::mem::swap(&mut rule_deletes, &mut self.pending_rule_deletes);
        let mut source_creates = Vec::new();
        std::mem::swap(&mut source_creates, &mut self.pending_source_creates);
        let mut source_updates = Vec::new();
        std::mem::swap(&mut source_updates, &mut self.pending_source_updates);
        let mut source_deletes = Vec::new();
        std::mem::swap(&mut source_deletes, &mut self.pending_source_deletes);
        let source_touch = self.pending_source_touch;
        self.pending_source_touch = None;
        PendingWrites {
            tag_writes,
            rule_writes,
            rule_updates,
            rule_deletes,
            source_creates,
            source_updates,
            source_deletes,
            source_touch,
        }
    }

    /// Hands the queue to the control service: nothing while an earlier
    /// hand-over is still in flight or nothing is queued; without a control
    /// address the status line says "Control API not configured" and the
    /// queue stays; otherwise every queued write is taken.
    pub fn begin_control_writes(&mut self, in_flight: bool, has_control_addr: bool) -> (r: Option<PendingWrites>)
        ensures
            in_flight || !has_pending(*old(self)) ==> r is None && *final(self) == *old(self),
            !in_flight && has_pending(*old(self)) && !has_control_addr ==> r is None
                && (final(self).status_message matches Some((m, true)) && m@ == "Control API not configured"@)
                && *final(self) == (DiscoverState {
                status_message: final(self).status_message,
                ..*old(self)
            }),
            !in_flight && has_pending(*old(self)) && has_control_addr ==> (r matches Some(w)
                && took_all(w, *old(self))) && emptied(*final(self), *old(self)),
    {
        if in_flight || !self.has_pending_writes() {
            return None;
        }
        if !has_control_addr {
            self.status_message = Some((owned("Control API not configured"), true));
            return None;
        }
        Some(self.take_pending_writes())
    }

    /// Hands the queue to the local database: nothing when nothing is
    /// queued; when writes are blocked the unsaved message (see
    /// `unsaved_message`) is the scan error and the queue stays; otherwise
    /// every queued write is taken.
    pub fn begin_local_writes(&mut self, blocked: bool) -> (r: LocalWrites)
        ensures
            !has_pending(*old(self)) ==> r is Nothing && *final(self) == *old(self),
            has_pending(*old(self)) && blocked ==> (r matches LocalWrites::Blocked(m) && m@
                == unsaved_message()) && (final(self).scan_error matches Some(e) && e@
                == unsaved_message()) && *final(self) == (DiscoverState {
                scan_error: final(self).scan_error,
                ..*old(self)
            }),
            has_pending(*old(self)) && !blocked ==> (r matches LocalWrites::Write(w) && took_all(
                w,
                *old(self),
            )) && emptied(*final(self), *old(self)),
    {
        if !self.has_pending_writes() {
            return LocalWrites::Nothing;
        }
        if blocked {
            let m = "Sentinel not reachable; changes are not saved (use --standalone-writer to allow local writes)";
            self.scan_error = Some(owned(m));
            return LocalWrites::Blocked(owned(m));
        }
        LocalWrites::Write(self.take_pending_writes())
    }
}

} // verus!

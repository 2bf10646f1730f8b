//! The Sessions screen of the intent workflow: sessions, proposals, gates,
//! selection and view-state navigation. Times are milliseconds since the
//! Unix epoch; proposal ids are UUIDs held as 128-bit values.
use vstd::prelude::*;
use crate::tabs::{after_return, after_transition, clamp_index, clamped, TuiMode};

verus! {

/// View states within the Sessions screen.
#[derive(Debug, Clone, Copy, PartialEq, Eq, Structural)]
pub enum SessionsViewState {
    SessionList,
    SessionDetail,
    WorkflowProgress,
    ProposalReview,
    GateApproval,
}

/// A session as listed.
#[derive(Debug, Clone)]
pub struct SessionInfo {
    pub id: String,
    /// The intent, e.g. "find all sales files"
    pub intent: String,
    /// Label of the current workflow state
    pub state_label: String,
    pub created_at: i64,
    pub file_count: usize,
    /// Gate awaiting approval (G1, G2, ...)
    pub pending_gate: Option<String>,
}

/// A proposal under review.
#[derive(Debug, Clone)]
pub struct ProposalInfo {
    pub id: String,
    /// "Selection", "TagRules", ...
    pub proposal_type: String,
    pub summary: String,
    /// "LOW", "MEDIUM", "HIGH"
    pub confidence: String,
    pub created_at: i64,
}

/// A gate awaiting approval.
#[derive(Debug, Clone)]
pub struct GateInfo {
    /// G1 to G6
    pub gate_id: String,
    pub gate_name: String,
    pub proposal_summary: String,
    pub evidence: Vec<String>,
    pub confidence: String,
    pub selected_examples: Vec<String>,
    pub near_miss_examples: Vec<String>,
    pub next_actions: Vec<String>,
    pub proposal_id: u128,
    pub approval_target_hash: String,
}

/// State of the Sessions screen.
#[derive(Debug, Clone)]
pub struct SessionsState {
    pub view_state: SessionsViewState,
    pub previous_view_state: Option<SessionsViewState>,
    pub previous_mode: Option<TuiMode>,
    pub sessions: Vec<SessionInfo>,
    pub selected_index: usize,
    /// Session whose details are shown
    pub active_session: Option<String>,
    pub current_proposal: Option<ProposalInfo>,
    pub pending_gate: Option<GateInfo>,
    /// Newly created session to select after a reload
    pub pending_select_session_id: Option<String>,
    pub sessions_loaded: bool,
}

impl SessionsState {
    /// The session at the selected row, if there is one.
    pub fn selected_session(&self) -> (r: Option<&SessionInfo>)
        ensures
            self.selected_index < self.sessions@.len() ==> (r matches Some(s) && *s
                == self.sessions@[self.selected_index as int]),
            self.selected_index >= self.sessions@.len() ==> r is None,
    {
        if self.selected_index < self.sessions.len() {
            Some(&self.sessions[self.selected_index])
        } else {
            None
        }
    }

    /// Clamps the selection to the list.
    pub fn clamp_selection(&mut self)
        ensures
            final(self).selected_index == clamped(old(self).selected_index, old(self).sessions@.len() as usize),
            *final(self) == (SessionsState { selected_index: final(self).selected_index, ..*old(self) }),
            final(self).sessions == old(self).sessions,
            final(self).view_state == old(self).view_state,
            final(self).previous_view_state == old(self).previous_view_state,
    {
        self.selected_index = clamp_index(self.selected_index, self.sessions.len());
    }

    /// Moves to a view state, remembering the current one.
    pub fn transition_state(&mut self, new_state: SessionsViewState)
        ensures
            (final(self).view_state, final(self).previous_view_state) == after_transition(
                old(self).view_state,
                new_state,
            ),
            final(self).sessions == old(self).sessions,
            final(self).selected_index == old(self).selected_index,
    {
        self.previous_view_state = Some(self.view_state);
        self.view_state = new_state;
    }

    /// Goes back to the remembered view state (or the session list) and
    /// forgets it.
    pub fn return_to_previous_state(&mut self)
        ensures
            (final(self).view_state, final(self).previous_view_state) == after_return(
                old(self).view_state,
                old(self).previous_view_state,
                SessionsViewState::SessionList,
            ),
            final(self).sessions == old(self).sessions,
            final(self).selected_index == old(self).selected_index,
    {
        match self.previous_view_state {
            Some(prev) => {
                self.view_state = prev;
                self.previous_view_state = None;
            },
            None => {
                self.view_state = SessionsViewState::SessionList;
            },
        }
    }
}

impl Default for SessionsState {
    /// The session list, empty, with nothing selected or pending.
    fn default() -> (r: Self)
        ensures
            r.view_state == SessionsViewState::SessionList,
            r.previous_view_state is None,
            r.previous_mode is None,
            r.sessions@.len() == 0,
            r.selected_index == 0,
            r.active_session is None,
            r.current_proposal is None,
            r.pending_gate is None,
            r.pending_select_session_id is None,
            !r.sessions_loaded,
    {
        SessionsState {
            view_state: SessionsViewState::SessionList,
            previous_view_state: None,
            previous_mode: None,
            sessions: Vec::new(),
            selected_index: 0,
            active_session: None,
            current_proposal: None,
            pending_gate: None,
            pending_select_session_id: None,
            sessions_loaded: false,
        }
    }
}

} // verus!

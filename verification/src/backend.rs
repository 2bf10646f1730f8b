//! Routing of writes: through the control service when it answers, else
//! straight to the database when standalone writing is allowed.
use vstd::prelude::*;
use crate::text::{concat2, owned};

verus! {

/// Why a write cannot go ahead.
#[derive(Debug, Clone, PartialEq, Eq)]
pub enum BackendError {
    /// The control service did not answer; its error text
    ControlUnavailable(String),
    /// No control service is configured and standalone writing is off
    ControlNotConfigured,
    /// The database is read-only
    ReadOnly,
}

pub enum BackendErrorView {
    ControlUnavailable(Seq<char>),
    ControlNotConfigured,
    ReadOnly,
}

impl BackendError {
    pub open spec fn view(&self) -> BackendErrorView {
        match self {
            BackendError::ControlUnavailable(m) => BackendErrorView::ControlUnavailable(m@),
            BackendError::ControlNotConfigured => BackendErrorView::ControlNotConfigured,
            BackendError::ReadOnly => BackendErrorView::ReadOnly,
        }
    }

    pub open spec fn text(&self) -> Seq<char> {
        match self {
            BackendError::ControlUnavailable(m) => "Sentinel not reachable: "@ + m@,
            BackendError::ControlNotConfigured => "Control API not configured; run with --standalone-writer"@,
            BackendError::ReadOnly => "Database is read-only"@,
        }
    }

    pub fn message(&self) -> (r: String)
        ensures
            r@ == self.text(),
    {
        match self {
            BackendError::ControlUnavailable(m) => concat2("Sentinel not reachable: ", m.as_str()),
            BackendError::ControlNotConfigured => owned(
                "Control API not configured; run with --standalone-writer",
            ),
            BackendError::ReadOnly => owned("Database is read-only"),
        }
    }
}

/// Where a write goes.
#[derive(Debug, Clone, Copy, PartialEq, Eq, Structural)]
pub enum MutationRoute {
    /// Through the connected control service
    Connected,
    /// Straight to the local database
    Offline,
}

/// How writes are routed: the control service address, whether writing to
/// the database directly is allowed, and whether the database is read-only.
#[derive(Debug, Clone)]
pub struct BackendRouter {
    pub control_addr: Option<String>,
    pub standalone_writer: bool,
    pub db_read_only: bool,
}

/// The route for a write when no control service is used.
pub open spec fn local_route(standalone_writer: bool, db_read_only: bool) -> Result<
    MutationRoute,
    BackendErrorView,
> {
    if standalone_writer && !db_read_only {
        Ok(MutationRoute::Offline)
    } else if db_read_only {
        Err(BackendErrorView::ReadOnly)
    } else {
        Err(BackendErrorView::ControlNotConfigured)
    }
}

impl BackendRouter {
    pub fn new(control_addr: Option<String>, standalone_writer: bool, db_read_only: bool) -> (r:
        Self)
        ensures
            r.control_addr == control_addr,
            r.standalone_writer == standalone_writer,
            r.db_read_only == db_read_only,
    {
        BackendRouter { control_addr, standalone_writer, db_read_only }
    }

    pub open spec fn blocked_spec(&self, control_connected: bool) -> bool {
        !control_connected && (self.db_read_only || !self.standalone_writer)
    }

    /// Writes are blocked unless the control service is connected, or the
    /// database is writable and standalone writing is allowed.
    pub fn mutations_blocked(&self, control_connected: bool) -> (r: bool)
        ensures
            r == self.blocked_spec(control_connected),
    {
        if control_connected {
            return false;
        }
        if self.db_read_only {
            return true;
        }
        !self.standalone_writer
    }

    pub open spec fn blocked_text(&self, action: Seq<char>) -> Seq<char> {
        if self.db_read_only {
            "Database is read-only; cannot "@ + action
        } else {
            "Sentinel not reachable; cannot "@ + action
        }
    }

    /// The message shown when an action is blocked.
    pub fn blocked_message(&self, action: &str) -> (r: String)
        ensures
            r@ == self.blocked_text(action@),
    {
        if self.db_read_only {
            concat2("Database is read-only; cannot ", action)
        } else {
            concat2("Sentinel not reachable; cannot ", action)
        }
    }

    pub open spec fn route_spec(&self, connect: Option<Result<(), Seq<char>>>) -> Result<
        MutationRoute,
        BackendErrorView,
    > {
        match connect {
            Some(Ok(())) => Ok(MutationRoute::Connected),
            Some(Err(e)) => if self.standalone_writer && !self.db_read_only {
                Ok(MutationRoute::Offline)
            } else {
                Err(BackendErrorView::ControlUnavailable(e))
            },
            None => local_route(self.standalone_writer, self.db_read_only),
        }
    }

    /// The route for a write, given how connecting to the control service
    /// went (`None` when no address is configured, else `Ok` or the error
    /// text): connected when it answered; otherwise offline when standalone
    /// writing to a writable database is allowed; otherwise the reason.
    pub fn route_mutation(&self, connect: &Option<Result<(), String>>) -> (r: Result<
        MutationRoute,
        BackendError,
    >)
        requires
            connect is Some <==> self.control_addr is Some,
        ensures
            match r {
                Ok(route) => self.route_spec(connect_view(*connect)) == Ok::<
                    MutationRoute,
                    BackendErrorView,
                >(route),
                Err(e) => self.route_spec(connect_view(*connect)) == Err::<
                    MutationRoute,
                    BackendErrorView,
                >(e.view()),
            },
    {
        match connect {
            Some(Ok(())) => Ok(MutationRoute::Connected),
            Some(Err(e)) => {
                if self.standalone_writer && !self.db_read_only {
                    Ok(MutationRoute::Offline)
                } else {
                    Err(BackendError::ControlUnavailable(owned(e.as_str())))
                }
            },
            None => {
                if self.standalone_writer && !self.db_read_only {
                    Ok(MutationRoute::Offline)
                } else if self.db_read_only {
                    Err(BackendError::ReadOnly)
                } else {
                    Err(BackendError::ControlNotConfigured)
                }
            },
        }
    }
}

/// How connecting went, as text.
pub open spec fn connect_view(connect: Option<Result<(), String>>) -> Option<Result<(), Seq<char>>> {
    match connect {
        Some(Ok(())) => Some(Ok::<(), Seq<char>>(())),
        Some(Err(e)) => Some(Err::<(), Seq<char>>(e@)),
        None => None,
    }
}

/// Routing agrees with blocking: without a connected control service, a
/// write gets a route exactly when writes are not blocked.
pub proof fn law_route_agrees_with_blocking(router: BackendRouter, e: Seq<char>)
    ensures
        router.route_spec(Some(Err::<(), Seq<char>>(e))) is Ok <==> !router.blocked_spec(false),
        local_route(router.standalone_writer, router.db_read_only) is Ok <==> !router.blocked_spec(
            false,
        ),
{
}

} // verus!

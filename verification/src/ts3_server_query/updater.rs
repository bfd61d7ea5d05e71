//! The reconciliation loop, as the decisions it takes.
//!
//! Talking to the query service and sleeping is the caller's part. After each
//! outcome the caller asks here what to do next. No failure ends the loop: a
//! connection that could not be made is tried again after the interval, and
//! so is a cycle that failed.

use vstd::prelude::*;

verus! {

/// The time between two cycles, in milliseconds.
pub const RECONCILE_INTERVAL_MS: u64 = 100;

/// Where the loop stands with the query service.
#[derive(Debug, Clone, Copy, PartialEq, Eq, Structural)]
pub enum QueryState {
    /// No session is open.
    Disconnected,
    /// A session is open, logged in, and has the server selected.
    Connected,
}

/// What last happened.
#[derive(Debug, Clone, Copy, PartialEq, Eq, Structural)]
pub enum QueryEvent {
    /// The interval has passed, or the loop has just started.
    Tick,
    /// A session was opened.
    ConnectSucceeded,
    /// Connecting, logging in or selecting the server failed.
    ConnectFailed,
    /// A cycle fetched the roster and the store took it over.
    UpdateSucceeded,
    /// A cycle failed, and the store is as it was.
    UpdateFailed,
}

/// What the caller does next.
#[derive(Debug, Clone, Copy, PartialEq, Eq, Structural)]
pub enum QueryAction {
    /// Open a session: connect, log in, select the server.
    Connect,
    /// Run one cycle: fetch the roster and hand it to the store.
    Update,
    /// Sleep for the interval.
    Sleep,
}

/// The state and the action that follow an event.
pub open spec fn query_transition(state: QueryState, event: QueryEvent) -> (
    QueryState,
    QueryAction,
) {
    match event {
        QueryEvent::Tick => match state {
            QueryState::Disconnected => (QueryState::Disconnected, QueryAction::Connect),
            QueryState::Connected => (QueryState::Connected, QueryAction::Update),
        },
        QueryEvent::ConnectSucceeded => (QueryState::Connected, QueryAction::Update),
        QueryEvent::ConnectFailed => (QueryState::Disconnected, QueryAction::Sleep),
        QueryEvent::UpdateSucceeded => (state, QueryAction::Sleep),
        QueryEvent::UpdateFailed => (state, QueryAction::Sleep),
    }
}

/// Decides what the reconciliation loop does after an event.
pub fn query_step(state: QueryState, event: QueryEvent) -> (next: (QueryState, QueryAction))
    ensures
        next == query_transition(state, event),
        next.1 == QueryAction::Update ==> next.0 == QueryState::Connected,
        event == QueryEvent::ConnectFailed || event == QueryEvent::UpdateFailed ==> next.1
            == QueryAction::Sleep,
{
    match event {
        QueryEvent::Tick => match state {
            QueryState::Disconnected => (QueryState::Disconnected, QueryAction::Connect),
            QueryState::Connected => (QueryState::Connected, QueryAction::Update),
        },
        QueryEvent::ConnectSucceeded => (QueryState::Connected, QueryAction::Update),
        QueryEvent::ConnectFailed => (QueryState::Disconnected, QueryAction::Sleep),
        QueryEvent::UpdateSucceeded => (state, QueryAction::Sleep),
        QueryEvent::UpdateFailed => (state, QueryAction::Sleep),
    }
}

} // verus!

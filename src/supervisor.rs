//! The reconnect loop around each feed reader, as a state machine: the
//! caller performs each action and reports what happened.

use vstd::prelude::*;

verus! {

/// One unit of backoff time, in milliseconds.
pub const BACKOFF_UNIT_MS: u64 = 1000;

/// The wait after a failed connect.
pub const SETUP_BACKOFF_MS: u64 = 5 * BACKOFF_UNIT_MS;

/// The wait after a connection that failed or ended while running.
pub const RUNTIME_BACKOFF_MS: u64 = 1 * BACKOFF_UNIT_MS;

#[derive(Clone, Copy, Debug, PartialEq, Eq)]
pub enum SourceState {
    /// Opening the feed.
    Connecting,
    /// Reading from an open feed.
    Running,
    /// Waiting before the next connect.
    BackingOff { millis: u64 },
}

#[derive(Clone, Copy, Debug, PartialEq, Eq)]
pub enum SourceEvent {
    /// The feed was opened.
    Connected,
    /// The feed could not be opened.
    SetupFailed,
    /// Reading stopped with an error; the end of the stream counts as one.
    RunFailed,
    /// Reading stopped without an error.
    RunReturned,
    /// The wait is over.
    BackoffElapsed,
}

#[derive(Clone, Copy, Debug, PartialEq, Eq)]
pub enum SourceAction {
    Connect,
    Run,
    Wait { millis: u64 },
}

/// What is done in a state: the loop has no state in which it stops.
pub open spec fn action_of(state: SourceState) -> SourceAction {
    match state {
        SourceState::Connecting => SourceAction::Connect,
        SourceState::Running => SourceAction::Run,
        SourceState::BackingOff { millis } => SourceAction::Wait { millis },
    }
}

/// The state that follows `state` on `event`. An event that cannot happen in
/// a state leaves it as it is.
pub open spec fn next_state(state: SourceState, event: SourceEvent) -> SourceState {
    match (state, event) {
        (SourceState::Connecting, SourceEvent::Connected) => SourceState::Running,
        (SourceState::Connecting, SourceEvent::SetupFailed) => SourceState::BackingOff {
            millis: SETUP_BACKOFF_MS,
        },
        (SourceState::Running, SourceEvent::RunFailed) => SourceState::BackingOff {
            millis: RUNTIME_BACKOFF_MS,
        },
        (SourceState::Running, SourceEvent::RunReturned) => SourceState::Connecting,
        (SourceState::BackingOff { .. }, SourceEvent::BackoffElapsed) => SourceState::Connecting,
        _ => state,
    }
}

/// The state a reader starts in, and what it does first.
pub fn initial_step() -> (r: (SourceState, SourceAction))
    ensures
        r.0 == SourceState::Connecting,
        r.1 == action_of(r.0),
{
    (SourceState::Connecting, SourceAction::Connect)
}

/// Moves the reconnect loop on by one event: returns the new state and the
/// action to perform in it.
pub fn next_step(state: SourceState, event: SourceEvent) -> (r: (SourceState, SourceAction))
    ensures
        r.0 == next_state(state, event),
        r.1 == action_of(r.0),
{
    let s = match (state, event) {
        (SourceState::Connecting, SourceEvent::Connected) => SourceState::Running,
        (SourceState::Connecting, SourceEvent::SetupFailed) => SourceState::BackingOff {
            millis: SETUP_BACKOFF_MS,
        },
        (SourceState::Running, SourceEvent::RunFailed) => SourceState::BackingOff {
            millis: RUNTIME_BACKOFF_MS,
        },
        (SourceState::Running, SourceEvent::RunReturned) => SourceState::Connecting,
        (SourceState::BackingOff { .. }, SourceEvent::BackoffElapsed) => SourceState::Connecting,
        _ => state,
    };
    let a = match s {
        SourceState::Connecting => SourceAction::Connect,
        SourceState::Running => SourceAction::Run,
        SourceState::BackingOff { millis } => SourceAction::Wait { millis },
    };
    (s, a)
}

/// A connection that ends while running (the end of the stream included) is
/// dropped, one unit of time is waited, and a new connect follows.
pub proof fn lemma_runtime_failure_backoff()
    ensures
        next_state(SourceState::Running, SourceEvent::RunFailed) == (SourceState::BackingOff {
            millis: BACKOFF_UNIT_MS,
        }),
        action_of(next_state(SourceState::Running, SourceEvent::RunFailed)) == (SourceAction::Wait {
            millis: BACKOFF_UNIT_MS,
        }),
        action_of(
            next_state(
                next_state(SourceState::Running, SourceEvent::RunFailed),
                SourceEvent::BackoffElapsed,
            ),
        ) == SourceAction::Connect,
{
}

/// A feed that cannot be opened is tried again after five units of time.
pub proof fn lemma_setup_failure_backoff()
    ensures
        next_state(SourceState::Connecting, SourceEvent::SetupFailed) == (SourceState::BackingOff {
            millis: (5 * BACKOFF_UNIT_MS) as u64,
        }),
        action_of(next_state(SourceState::Connecting, SourceEvent::SetupFailed)) == (
        SourceAction::Wait { millis: (5 * BACKOFF_UNIT_MS) as u64 }),
        action_of(
            next_state(
                next_state(SourceState::Connecting, SourceEvent::SetupFailed),
                SourceEvent::BackoffElapsed,
            ),
        ) == SourceAction::Connect,
{
}

} // verus!

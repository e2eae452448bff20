//! The life cycle of the manifest watcher.
//!
//! A background task observes the real manifest directory and, after each
//! debounced burst of file events, refreshes the shadow manifest.  The task,
//! the debouncing and the channel are run outside the library; the decisions
//! — what to do on each event, and that one failed refresh never ends the
//! watch — are the verified state machine below.

use vstd::prelude::*;

verus! {

/// Where the watcher stands.
#[derive(Debug, Clone, Copy, PartialEq, Eq, Structural)]
pub enum WatchState {
    /// Not yet started.
    Idle,
    /// The background watch is running.
    Watching,
    /// Stopped; no further events are acted on.
    Stopped,
}

/// What the watcher is told.
#[derive(Debug, Clone, Copy, PartialEq, Eq, Structural)]
pub enum WatchEvent {
    /// The watch is being started.
    Start,
    /// A debounced burst of file events arrived from the watched directory.
    FileChanges,
    /// The last refresh of the shadow manifest failed.
    RefreshFailed,
    /// The session is shutting the watch down.
    StopRequested,
}

/// What the caller must do next.
#[derive(Debug, Clone, Copy, PartialEq, Eq, Structural)]
pub enum WatchAction {
    /// Refresh the shadow manifest now, then keep observing.
    RunRefresh,
    /// Cancel the background task and drop the watch handle.
    CancelTask,
    /// Nothing.
    NoAction,
}

/// The watcher's transition function.
pub open spec fn watch_step(s: WatchState, e: WatchEvent) -> (WatchState, WatchAction) {
    match (s, e) {
        // Starting runs one refresh at once, so the shadow manifest is
        // correct before any edit occurs, and then begins observing.
        (WatchState::Idle, WatchEvent::Start) => (WatchState::Watching, WatchAction::RunRefresh),
        (WatchState::Idle, WatchEvent::StopRequested) => (WatchState::Stopped, WatchAction::NoAction),
        (WatchState::Idle, _) => (WatchState::Idle, WatchAction::NoAction),
        // Every debounced burst triggers one refresh; a failed refresh is
        // tolerated and the watch goes on.
        (WatchState::Watching, WatchEvent::FileChanges) => (
            WatchState::Watching,
            WatchAction::RunRefresh,
        ),
        (WatchState::Watching, WatchEvent::RefreshFailed) => (
            WatchState::Watching,
            WatchAction::NoAction,
        ),
        (WatchState::Watching, WatchEvent::StopRequested) => (
            WatchState::Stopped,
            WatchAction::CancelTask,
        ),
        (WatchState::Watching, WatchEvent::Start) => (WatchState::Watching, WatchAction::NoAction),
        // Stopping is final and idempotent.
        (WatchState::Stopped, _) => (WatchState::Stopped, WatchAction::NoAction),
    }
}

/// Take one step of the watcher.
pub fn on_watch_event(s: WatchState, e: WatchEvent) -> (r: (WatchState, WatchAction))
    ensures
        r == watch_step(s, e),
{
    match (s, e) {
        (WatchState::Idle, WatchEvent::Start) => (WatchState::Watching, WatchAction::RunRefresh),
        (WatchState::Idle, WatchEvent::StopRequested) => (
            WatchState::Stopped,
            WatchAction::NoAction,
        ),
        (WatchState::Idle, _) => (WatchState::Idle, WatchAction::NoAction),
        (WatchState::Watching, WatchEvent::FileChanges) => (
            WatchState::Watching,
            WatchAction::RunRefresh,
        ),
        (WatchState::Watching, WatchEvent::RefreshFailed) => (
            WatchState::Watching,
            WatchAction::NoAction,
        ),
        (WatchState::Watching, WatchEvent::StopRequested) => (
            WatchState::Stopped,
            WatchAction::CancelTask,
        ),
        (WatchState::Watching, WatchEvent::Start) => (WatchState::Watching, WatchAction::NoAction),
        (WatchState::Stopped, _) => (WatchState::Stopped, WatchAction::NoAction),
    }
}

/// One failed refresh never ends the watch, and stopping is idempotent.
pub proof fn lemma_watch_resilient_and_stop_idempotent()
    ensures
        watch_step(WatchState::Watching, WatchEvent::RefreshFailed).0 == WatchState::Watching,
        watch_step(WatchState::Watching, WatchEvent::FileChanges).0 == WatchState::Watching,
        forall|e: WatchEvent|
            (#[trigger] watch_step(WatchState::Stopped, e)).0 == WatchState::Stopped,
{
}

} // verus!

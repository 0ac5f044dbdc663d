//! The watch loop and the shutdown signal: what each item of the stream leads to.

use vstd::prelude::*;
use crate::mover::{MovePlan, MovePlanView};
use crate::entry::Entry;
use crate::reconcile::{plan_entries, plan_views, plans_for};

verus! {

/// Exit status of a graceful shutdown.
pub const EXIT_SUCCESS: i32 = 0;

/// Exit status of a failure.
pub const EXIT_FAILURE: i32 = 1;

/// The kind of a file system notification, as far as the loop tells kinds apart.
#[derive(Clone, Copy, Debug, PartialEq, Eq, Structural)]
pub enum EventKind {
    /// A file that was open for writing has been closed.
    CloseWrite,
    /// Any other kind.
    Other,
}

/// One item of the stream that the loop reads.
#[derive(Debug)]
pub enum StreamItem {
    /// A notification, with the paths it reports, in the order given.
    Event { kind: EventKind, paths: Vec<Entry> },
    /// An error: the watcher's own, or the sentinel that the shutdown signal puts in.
    Error,
    /// The stream is broken: nothing will arrive any more.
    Closed,
}

/// Where the loop stands.
#[derive(Clone, Copy, Debug, PartialEq, Eq, Structural)]
pub enum LoopState {
    /// Watching.
    Running,
    /// Shutdown was asked for; the loop waits for the sentinel.
    Draining,
    /// Ended, with the exit status.
    Terminated { code: i32 },
}

/// What the loop does about an item.
#[derive(Debug)]
pub enum LoopAction {
    /// Nothing.
    Ignore,
    /// Carry out the relocations in order, then renew the link to the latest partition once.
    Settle { plans: Vec<MovePlan> },
    /// End the process with this status.
    Exit { code: i32 },
}

/// A signal from outside.
#[derive(Clone, Copy, Debug, PartialEq, Eq, Structural)]
pub enum Signal {
    /// The interrupt signal.
    Interrupt,
    /// The terminate signal.
    Terminate,
    /// Any other signal.
    Other,
}

/// What the shutdown coordinator does about a signal.
#[derive(Clone, Copy, Debug, PartialEq, Eq, Structural)]
pub enum SignalAction {
    /// Nothing; go on listening.
    Ignore,
    /// Put the sentinel into the stream and stop listening.
    Shutdown,
}

/// The exit status that an item leads to, if it ends the loop: a broken stream is a failure;
/// an error is the graceful end where shutdown was asked for, and a failure where it was not;
/// a loop that has ended keeps its status.
pub open spec fn exit_of(state: LoopState, item: StreamItem) -> Option<i32> {
    match state {
        LoopState::Terminated { code } => Some(code),
        _ => match item {
            StreamItem::Closed => Some(EXIT_FAILURE),
            StreamItem::Error => Some(
                if state == LoopState::Draining {
                    EXIT_SUCCESS
                } else {
                    EXIT_FAILURE
                },
            ),
            StreamItem::Event { .. } => None,
        },
    }
}

/// The relocations that an item leads to: for a close-after-write notification one for each
/// reported path that is a regular file, in the order given; for anything else none.
pub open spec fn batch_of(root: Seq<char>, item: StreamItem) -> Seq<MovePlanView> {
    match item {
        StreamItem::Event { kind: EventKind::CloseWrite, paths } => plans_for(root, paths@),
        _ => seq![],
    }
}

/// The state after an item: a notification changes nothing; what ends the loop leaves it
/// terminated with that status.
pub open spec fn state_after(state: LoopState, item: StreamItem) -> LoopState {
    match exit_of(state, item) {
        Some(code) => LoopState::Terminated { code },
        None => state,
    }
}

/// The state after a signal: one of the two recognised signals turns a running loop into a
/// draining one; nothing else changes anything.
pub open spec fn state_after_signal(state: LoopState, signal: Signal) -> LoopState {
    if state == LoopState::Running && signal != Signal::Other {
        LoopState::Draining
    } else {
        state
    }
}

/// One turn of the watch loop, for the item that was received.
///
/// A loop that has ended, a broken stream and an error end the process, with the status that
/// `exit_of` gives. A close-after-write notification that reports at least one regular file
/// has those files relocated and the link renewed once. Every other notification is ignored.
pub fn watch_step(root: &str, state: LoopState, item: &StreamItem) -> (r: (LoopState, LoopAction))
    ensures
        r.0 == state_after(state, *item),
        match r.1 {
            LoopAction::Exit { code } => exit_of(state, *item) == Some(code),
            LoopAction::Settle { plans } => exit_of(state, *item) is None && plans@.len() > 0
                && plan_views(plans@) == batch_of(root@, *item),
            LoopAction::Ignore => exit_of(state, *item) is None && batch_of(root@, *item).len()
                == 0,
        },
{
    if let LoopState::Terminated { code } = state {
        return (state, LoopAction::Exit { code });
    }
    match item {
        StreamItem::Closed => (
            LoopState::Terminated { code: EXIT_FAILURE },
            LoopAction::Exit { code: EXIT_FAILURE },
        ),
        StreamItem::Error => {
            let code: i32 = match state {
                LoopState::Draining => EXIT_SUCCESS,
                _ => EXIT_FAILURE,
            };
            (LoopState::Terminated { code }, LoopAction::Exit { code })
        },
        StreamItem::Event { kind, paths } => match kind {
            EventKind::CloseWrite => {
                let plans = plan_entries(root, paths);
                if plans.len() > 0 {
                    (state, LoopAction::Settle { plans })
                } else {
                    (state, LoopAction::Ignore)
                }
            },
            EventKind::Other => (state, LoopAction::Ignore),
        },
    }
}

/// What the shutdown coordinator does when a signal arrives: on the first interrupt or
/// terminate signal the loop is marked as draining and the sentinel is to be sent; after
/// that, and for every other signal, nothing happens.
pub fn on_signal(state: LoopState, signal: Signal) -> (r: (LoopState, SignalAction))
    ensures
        r.0 == state_after_signal(state, signal),
        r.1 == if state == LoopState::Running && signal != Signal::Other {
            SignalAction::Shutdown
        } else {
            SignalAction::Ignore
        },
{
    match (state, signal) {
        (LoopState::Running, Signal::Interrupt) => (LoopState::Draining, SignalAction::Shutdown),
        (LoopState::Running, Signal::Terminate) => (LoopState::Draining, SignalAction::Shutdown),
        _ => (state, SignalAction::Ignore),
    }
}

/// The loop ends gracefully only by the sentinel: an item takes a loop that has not ended to
/// exit status 0 exactly when shutdown was asked for and the item is an error.
pub proof fn graceful_exit_needs_shutdown(state: LoopState, item: StreamItem)
    requires
        !(state is Terminated),
    ensures
        exit_of(state, item) == Some(EXIT_SUCCESS) <==> state == LoopState::Draining
            && item is Error,
        item is Event ==> state_after(state, item) == state,
        !(item is Event) ==> state_after(state, item) is Terminated,
{
}

/// A loop that has ended stays ended, with the status it ended with.
pub proof fn terminated_is_final(code: i32, item: StreamItem, signal: Signal)
    ensures
        state_after(LoopState::Terminated { code }, item) == (LoopState::Terminated { code }),
        state_after_signal(LoopState::Terminated { code }, signal) == (LoopState::Terminated {
            code,
        }),
{
}

/// A signal then the sentinel: from a running loop, an interrupt or terminate signal followed
/// by an error item ends the loop with status 0; the same error without the signal ends it
/// with status 1.
pub proof fn signal_then_sentinel_is_graceful(signal: Signal)
    requires
        signal != Signal::Other,
    ensures
        exit_of(state_after_signal(LoopState::Running, signal), StreamItem::Error) == Some(
            EXIT_SUCCESS,
        ),
        exit_of(LoopState::Running, StreamItem::Error) == Some(EXIT_FAILURE),
{
}

} // verus!

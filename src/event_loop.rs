//! The message loop that keeps the keyboard hook registered, as a state
//! machine: each event that the caller observes gives the next phase and the
//! action that the caller is to perform.

use vstd::prelude::*;

verus! {

/// The pause after each dispatched message, in milliseconds.
pub const IDLE_PAUSE_MILLIS: u64 = 10;

/// The message identifier of the loop-terminating quit signal.
pub const QUIT_MESSAGE: u32 = 0x0012;

/// The status with which message retrieval reports a hard error.
pub const RETRIEVAL_ERROR: i32 = -1;

/// The phases of the loop.
#[derive(Clone, Copy, Debug, PartialEq, Eq, Structural)]
pub enum LoopPhase {
    Uninitialized,
    Registered,
    Running,
    Unregistering { failed: bool },
    Terminated,
}

/// What the caller observed after performing the last action.
#[derive(Clone, Copy, Debug, PartialEq, Eq, Structural)]
pub enum LoopEvent {
    HookInstalled,
    HookRejected,
    MessageRetrieved { status: i32, message: u32 },
    HookRemoved,
}

/// Why the loop stopped abnormally.
#[derive(Clone, Copy, Debug, PartialEq, Eq, Structural)]
pub enum LoopFailure {
    HookRejected,
    RetrievalFailed,
}

/// What the caller is to do next.
#[derive(Clone, Copy, Debug, PartialEq, Eq, Structural)]
pub enum LoopAction {
    /// Register the keyboard hook.
    InstallHook,
    /// Block until the next message arrives.
    AwaitMessage,
    /// Translate and dispatch the message, pause, then await the next one.
    DispatchAndAwait,
    /// Translate and dispatch the quit message, then remove the hook.
    DispatchAndRemoveHook,
    /// Remove the hook.
    RemoveHook,
    /// Stop normally.
    Exit,
    /// Stop with a failure.
    Abort(LoopFailure),
}

/// The action that a phase waits to see performed.
pub open spec fn awaited(phase: LoopPhase) -> LoopAction {
    match phase {
        LoopPhase::Uninitialized => LoopAction::InstallHook,
        LoopPhase::Registered => LoopAction::AwaitMessage,
        LoopPhase::Running => LoopAction::AwaitMessage,
        LoopPhase::Unregistering { .. } => LoopAction::RemoveHook,
        LoopPhase::Terminated => LoopAction::Exit,
    }
}

/// The transition on one event. An event that the phase does not expect
/// leaves the phase as it is and repeats the action that it waits for.
pub open spec fn transition(phase: LoopPhase, event: LoopEvent) -> (LoopPhase, LoopAction) {
    match (phase, event) {
        (LoopPhase::Uninitialized, LoopEvent::HookInstalled) => (
            LoopPhase::Registered,
            LoopAction::AwaitMessage,
        ),
        (LoopPhase::Uninitialized, LoopEvent::HookRejected) => (
            LoopPhase::Terminated,
            LoopAction::Abort(LoopFailure::HookRejected),
        ),
        (LoopPhase::Registered, LoopEvent::MessageRetrieved { status, message })
        | (LoopPhase::Running, LoopEvent::MessageRetrieved { status, message }) => {
            if status == RETRIEVAL_ERROR {
                (LoopPhase::Unregistering { failed: true }, LoopAction::RemoveHook)
            } else if message == QUIT_MESSAGE {
                (LoopPhase::Unregistering { failed: false }, LoopAction::DispatchAndRemoveHook)
            } else {
                (LoopPhase::Running, LoopAction::DispatchAndAwait)
            }
        },
        (LoopPhase::Unregistering { failed }, LoopEvent::HookRemoved) => (
            LoopPhase::Terminated,
            if failed {
                LoopAction::Abort(LoopFailure::RetrievalFailed)
            } else {
                LoopAction::Exit
            },
        ),
        _ => (phase, awaited(phase)),
    }
}

/// The first phase and the first action.
pub fn start() -> (r: (LoopPhase, LoopAction))
    ensures
        r == (LoopPhase::Uninitialized, LoopAction::InstallHook),
{
    (LoopPhase::Uninitialized, LoopAction::InstallHook)
}

/// The action that `phase` waits to see performed.
pub fn awaited_action(phase: LoopPhase) -> (r: LoopAction)
    ensures
        r == awaited(phase),
{
    match phase {
        LoopPhase::Uninitialized => LoopAction::InstallHook,
        LoopPhase::Registered => LoopAction::AwaitMessage,
        LoopPhase::Running => LoopAction::AwaitMessage,
        LoopPhase::Unregistering { .. } => LoopAction::RemoveHook,
        LoopPhase::Terminated => LoopAction::Exit,
    }
}

/// The next phase and the action to perform after `event` in `phase`.
pub fn step(phase: LoopPhase, event: LoopEvent) -> (r: (LoopPhase, LoopAction))
    ensures
        r == transition(phase, event),
{
    match (phase, event) {
        (LoopPhase::Uninitialized, LoopEvent::HookInstalled) => (
            LoopPhase::Registered,
            LoopAction::AwaitMessage,
        ),
        (LoopPhase::Uninitialized, LoopEvent::HookRejected) => (
            LoopPhase::Terminated,
            LoopAction::Abort(LoopFailure::HookRejected),
        ),
        (LoopPhase::Registered, LoopEvent::MessageRetrieved { status, message })
        | (LoopPhase::Running, LoopEvent::MessageRetrieved { status, message }) => {
            if status == RETRIEVAL_ERROR {
                (LoopPhase::Unregistering { failed: true }, LoopAction::RemoveHook)
            } else if message == QUIT_MESSAGE {
                (LoopPhase::Unregistering { failed: false }, LoopAction::DispatchAndRemoveHook)
            } else {
                (LoopPhase::Running, LoopAction::DispatchAndAwait)
            }
        },
        (LoopPhase::Unregistering { failed }, LoopEvent::HookRemoved) => (
            LoopPhase::Terminated,
            if failed {
                LoopAction::Abort(LoopFailure::RetrievalFailed)
            } else {
                LoopAction::Exit
            },
        ),
        _ => (phase, awaited_action(phase)),
    }
}

/// Once the hook is registered, the loop ends only by removing it: the only
/// way into the final phase from a phase holding the hook is the removal.
pub proof fn lemma_hook_removed_before_exit(phase: LoopPhase, event: LoopEvent)
    requires
        phase is Registered || phase is Running || phase is Unregistering,
        transition(phase, event).0 is Terminated,
    ensures
        phase is Unregistering,
        event is HookRemoved,
{
}

/// A hard retrieval error is never taken for a normal stop, and a rejected
/// registration leaves nothing to remove.
pub proof fn lemma_failures_reported(phase: LoopPhase, event: LoopEvent)
    ensures
        phase == (LoopPhase::Unregistering { failed: true }) && event is HookRemoved ==> transition(
            phase,
            event,
        ).1 == LoopAction::Abort(LoopFailure::RetrievalFailed),
        phase is Uninitialized && event is HookRejected ==> transition(phase, event) == (
            LoopPhase::Terminated,
            LoopAction::Abort(LoopFailure::HookRejected),
        ),
{
}

} // verus!

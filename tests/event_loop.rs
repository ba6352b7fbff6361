use disable_keys::event_loop::{
    awaited_action, start, step, LoopAction, LoopEvent, LoopFailure, LoopPhase, IDLE_PAUSE_MILLIS,
    QUIT_MESSAGE, RETRIEVAL_ERROR,
};

#[test]
fn loop_starts_by_installing_the_hook() {
    assert_eq!(start(), (LoopPhase::Uninitialized, LoopAction::InstallHook));
}

#[test]
fn rejected_hook_aborts_at_once() {
    let (phase, action) = step(LoopPhase::Uninitialized, LoopEvent::HookRejected);
    assert_eq!(phase, LoopPhase::Terminated);
    assert_eq!(action, LoopAction::Abort(LoopFailure::HookRejected));
}

#[test]
fn normal_run_dispatches_then_unhooks_on_quit() {
    let (phase, action) = step(LoopPhase::Uninitialized, LoopEvent::HookInstalled);
    assert_eq!((phase, action), (LoopPhase::Registered, LoopAction::AwaitMessage));
    let (phase, action) = step(phase, LoopEvent::MessageRetrieved { status: 1, message: 0x0100 });
    assert_eq!((phase, action), (LoopPhase::Running, LoopAction::DispatchAndAwait));
    let (phase, action) = step(phase, LoopEvent::MessageRetrieved { status: 1, message: 0x0113 });
    assert_eq!((phase, action), (LoopPhase::Running, LoopAction::DispatchAndAwait));
    let (phase, action) = step(phase, LoopEvent::MessageRetrieved { status: 0, message: QUIT_MESSAGE });
    assert_eq!(phase, LoopPhase::Unregistering { failed: false });
    assert_eq!(action, LoopAction::DispatchAndRemoveHook);
    let (phase, action) = step(phase, LoopEvent::HookRemoved);
    assert_eq!((phase, action), (LoopPhase::Terminated, LoopAction::Exit));
}

#[test]
fn retrieval_error_removes_hook_then_aborts() {
    let (phase, action) =
        step(LoopPhase::Running, LoopEvent::MessageRetrieved { status: RETRIEVAL_ERROR, message: 0 });
    assert_eq!(phase, LoopPhase::Unregistering { failed: true });
    assert_eq!(action, LoopAction::RemoveHook);
    let (phase, action) = step(phase, LoopEvent::HookRemoved);
    assert_eq!(phase, LoopPhase::Terminated);
    assert_eq!(action, LoopAction::Abort(LoopFailure::RetrievalFailed));
}

#[test]
fn unexpected_event_repeats_awaited_action() {
    let (phase, action) = step(LoopPhase::Running, LoopEvent::HookInstalled);
    assert_eq!((phase, action), (LoopPhase::Running, LoopAction::AwaitMessage));
    let (phase, action) = step(LoopPhase::Terminated, LoopEvent::HookRemoved);
    assert_eq!((phase, action), (LoopPhase::Terminated, LoopAction::Exit));
    assert_eq!(awaited_action(LoopPhase::Unregistering { failed: true }), LoopAction::RemoveHook);
    assert_eq!(awaited_action(LoopPhase::Uninitialized), LoopAction::InstallHook);
}

#[test]
fn idle_pause_is_short() {
    assert_eq!(IDLE_PAUSE_MILLIS, 10);
}

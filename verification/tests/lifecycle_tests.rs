use neovide_core::lifecycle::{
    lifecycle_apply, lifecycle_next_action, map_exit_code, ExitOutcome, LifecycleAction,
    LifecycleEvent, LifecyclePhase, GENERIC_FAILURE_CODE, RUNTIME_SHUTDOWN_TIMEOUT_MS,
};

fn drive(events: &[LifecycleEvent]) -> (Vec<LifecycleAction>, LifecyclePhase) {
    let mut phase = LifecyclePhase::Initializing;
    let mut actions = vec![lifecycle_next_action(&phase)];
    for event in events {
        phase = lifecycle_apply(&phase, event);
        actions.push(lifecycle_next_action(&phase));
    }
    (actions, phase)
}

fn shutdown_count(actions: &[LifecycleAction]) -> usize {
    actions
        .iter()
        .filter(|a| **a == LifecycleAction::ShutdownRuntime)
        .count()
}

#[test]
fn normal_exit_reports_the_tracker_code() {
    assert_eq!(map_exit_code(&ExitOutcome::Normal, 0), 0);
    assert_eq!(map_exit_code(&ExitOutcome::Normal, 3), 3);
}

#[test]
fn explicit_exit_failure_code_passes_through_verbatim() {
    assert_eq!(map_exit_code(&ExitOutcome::ExitFailure(17), 0), 17);
}

#[test]
fn other_loop_errors_report_the_fixed_failure_code() {
    assert_eq!(map_exit_code(&ExitOutcome::LoopError, 0), GENERIC_FAILURE_CODE);
    assert_eq!(map_exit_code(&ExitOutcome::LoopError, 42), GENERIC_FAILURE_CODE);
}

#[test]
fn startup_failure_reports_the_presentation_code() {
    assert_eq!(map_exit_code(&ExitOutcome::StartupFailed(7), 0), 7);
}

#[test]
fn normal_pass_shuts_down_once_and_exits_with_tracker_code() {
    let (actions, phase) = drive(&[
        LifecycleEvent::PlatformReady,
        LifecycleEvent::BootstrapSucceeded,
        LifecycleEvent::UiLoopCompleted,
        LifecycleEvent::RuntimeShutDown { tracker_code: 0 },
    ]);
    assert_eq!(shutdown_count(&actions), 1);
    assert_eq!(phase, LifecyclePhase::Terminated(0));
    assert_eq!(*actions.last().unwrap(), LifecycleAction::Exit(0));
}

#[test]
fn exit_failure_pass_shuts_down_once_and_keeps_the_code() {
    let (actions, phase) = drive(&[
        LifecycleEvent::PlatformReady,
        LifecycleEvent::BootstrapSucceeded,
        LifecycleEvent::UiLoopExitFailure(17),
        LifecycleEvent::RuntimeShutDown { tracker_code: 0 },
    ]);
    assert_eq!(shutdown_count(&actions), 1);
    assert_eq!(phase, LifecyclePhase::Terminated(17));
}

#[test]
fn loop_error_pass_shuts_down_once_and_reports_the_failure_code() {
    let (actions, phase) = drive(&[
        LifecycleEvent::PlatformReady,
        LifecycleEvent::BootstrapSucceeded,
        LifecycleEvent::UiLoopErrored,
        LifecycleEvent::RuntimeShutDown { tracker_code: 0 },
    ]);
    assert_eq!(shutdown_count(&actions), 1);
    assert_eq!(phase, LifecyclePhase::Terminated(GENERIC_FAILURE_CODE));
}

#[test]
fn bootstrap_failure_pass_still_shuts_down_exactly_once() {
    let (actions, phase) = drive(&[
        LifecycleEvent::PlatformReady,
        LifecycleEvent::BootstrapFailed,
        LifecycleEvent::StartupErrorPresented(2),
        LifecycleEvent::RuntimeShutDown { tracker_code: 0 },
    ]);
    assert_eq!(shutdown_count(&actions), 1);
    assert_eq!(phase, LifecyclePhase::Terminated(2));
    assert_eq!(
        actions,
        vec![
            LifecycleAction::InstallDefaultPanicHook,
            LifecycleAction::RunBootstrap,
            LifecycleAction::PresentStartupError,
            LifecycleAction::ShutdownRuntime,
            LifecycleAction::Exit(2),
        ]
    );
}

#[test]
fn shutdown_wait_is_bounded() {
    assert_eq!(RUNTIME_SHUTDOWN_TIMEOUT_MS, 500);
}

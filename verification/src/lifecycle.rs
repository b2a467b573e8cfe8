//! The lifecycle driver: the top-level pass that installs the first panic
//! hook, runs bootstrap, drives the UI loop (or presents a startup error),
//! shuts the backend runtime down once with a bounded wait, and maps the way
//! the loop ended to the process exit code.

use vstd::prelude::*;

verus! {

/// The exit code reported when the UI loop ended with an error that carried
/// no code of its own.
pub const GENERIC_FAILURE_CODE: u8 = 1;

/// The hard upper bound, in milliseconds, on the wait for the backend
/// runtime to quiesce during shutdown.
pub const RUNTIME_SHUTDOWN_TIMEOUT_MS: u64 = 500;

/// How the pass ended before shutdown: what the UI loop (or the startup-error
/// presentation) reported.
#[derive(Clone, Copy, Debug, PartialEq, Eq, Structural)]
pub enum ExitOutcome {
    /// The UI loop completed normally; the tracker's recorded code decides.
    Normal,
    /// The UI loop requested an explicit exit-failure code, passed through
    /// verbatim.
    ExitFailure(u8),
    /// The UI loop ended with any other error.
    LoopError,
    /// Bootstrap failed; the startup-error presentation chose this code.
    StartupFailed(u8),
}

/// The exit code owed for an outcome: the tracker's code on a normal exit,
/// an explicit exit-failure code verbatim, the fixed failure code on any
/// other loop error, and the presentation's code after a startup failure.
pub open spec fn spec_exit_code(outcome: ExitOutcome, tracker_code: u8) -> u8 {
    match outcome {
        ExitOutcome::Normal => tracker_code,
        ExitOutcome::ExitFailure(code) => code,
        ExitOutcome::LoopError => GENERIC_FAILURE_CODE,
        ExitOutcome::StartupFailed(code) => code,
    }
}

/// Maps how the pass ended, together with the tracker's recorded exit code,
/// to the process exit code.
pub fn map_exit_code(outcome: &ExitOutcome, tracker_code: u8) -> (code: u8)
    ensures
        code == spec_exit_code(*outcome, tracker_code),
{
    match outcome {
        ExitOutcome::Normal => tracker_code,
        ExitOutcome::ExitFailure(code) => *code,
        ExitOutcome::LoopError => GENERIC_FAILURE_CODE,
        ExitOutcome::StartupFailed(code) => *code,
    }
}

/// Where the lifecycle driver stands.
#[derive(Clone, Copy, Debug, PartialEq, Eq, Structural)]
pub enum LifecyclePhase {
    /// Nothing done yet: the first panic hook, the platform fixups and the
    /// event loop are still owed.
    Initializing,
    /// The platform is ready; bootstrap is owed.
    AwaitingBootstrap,
    /// Bootstrap succeeded; the UI loop is being driven.
    Running,
    /// Bootstrap failed; the loop is driven once so the error can be shown.
    PresentingError,
    /// The UI loop is over; the bounded runtime shutdown is owed.
    ShuttingDown(ExitOutcome),
    /// The pass is over with this exit code.
    Terminated(u8),
}

/// What the outside world reported about the pending action.
#[derive(Clone, Copy, Debug, PartialEq, Eq, Structural)]
pub enum LifecycleEvent {
    /// The first panic hook is installed, the platform fixups are applied,
    /// and the event loop with its clipboard integration exists.
    PlatformReady,
    BootstrapSucceeded,
    BootstrapFailed,
    /// The UI loop completed normally.
    UiLoopCompleted,
    /// The UI loop requested an explicit exit-failure code.
    UiLoopExitFailure(u8),
    /// The UI loop ended with any other error.
    UiLoopErrored,
    /// The startup error was presented; the presentation chose this code.
    StartupErrorPresented(u8),
    /// The bounded runtime shutdown is done; the tracker's code was read.
    RuntimeShutDown { tracker_code: u8 },
}

/// What the driver must do next in a given phase.
#[derive(Clone, Copy, Debug, PartialEq, Eq, Structural)]
pub enum LifecycleAction {
    /// Install the pre-Config panic hook, apply platform fixups, build the
    /// event loop and its clipboard integration.
    InstallDefaultPanicHook,
    /// Run the bootstrap sequencer.
    RunBootstrap,
    /// Hand control to the platform event loop.
    DriveUiLoop,
    /// Delegate the startup error to the error presentation.
    PresentStartupError,
    /// Shut the backend runtime down, waiting at most
    /// `RUNTIME_SHUTDOWN_TIMEOUT_MS` milliseconds.
    ShutdownRuntime,
    /// Exit the process with this code.
    Exit(u8),
}

/// The one action pending in each phase.
pub open spec fn spec_lifecycle_action(p: LifecyclePhase) -> LifecycleAction {
    match p {
        LifecyclePhase::Initializing => LifecycleAction::InstallDefaultPanicHook,
        LifecyclePhase::AwaitingBootstrap => LifecycleAction::RunBootstrap,
        LifecyclePhase::Running => LifecycleAction::DriveUiLoop,
        LifecyclePhase::PresentingError => LifecycleAction::PresentStartupError,
        LifecyclePhase::ShuttingDown(_) => LifecycleAction::ShutdownRuntime,
        LifecyclePhase::Terminated(code) => LifecycleAction::Exit(code),
    }
}

/// What the driver must do next in the given phase.
pub fn lifecycle_next_action(phase: &LifecyclePhase) -> (a: LifecycleAction)
    ensures
        a == spec_lifecycle_action(*phase),
{
    match phase {
        LifecyclePhase::Initializing => LifecycleAction::InstallDefaultPanicHook,
        LifecyclePhase::AwaitingBootstrap => LifecycleAction::RunBootstrap,
        LifecyclePhase::Running => LifecycleAction::DriveUiLoop,
        LifecyclePhase::PresentingError => LifecycleAction::PresentStartupError,
        LifecyclePhase::ShuttingDown(_) => LifecycleAction::ShutdownRuntime,
        LifecyclePhase::Terminated(code) => LifecycleAction::Exit(*code),
    }
}

/// The event is a possible outcome of the phase's pending action.
pub open spec fn lifecycle_event_fits(p: LifecyclePhase, e: LifecycleEvent) -> bool {
    match (p, e) {
        (LifecyclePhase::Initializing, LifecycleEvent::PlatformReady) => true,
        (LifecyclePhase::AwaitingBootstrap, LifecycleEvent::BootstrapSucceeded) => true,
        (LifecyclePhase::AwaitingBootstrap, LifecycleEvent::BootstrapFailed) => true,
        (LifecyclePhase::Running, LifecycleEvent::UiLoopCompleted) => true,
        (LifecyclePhase::Running, LifecycleEvent::UiLoopExitFailure(_)) => true,
        (LifecyclePhase::Running, LifecycleEvent::UiLoopErrored) => true,
        (LifecyclePhase::PresentingError, LifecycleEvent::StartupErrorPresented(_)) => true,
        (LifecyclePhase::ShuttingDown(_), LifecycleEvent::RuntimeShutDown { .. }) => true,
        _ => false,
    }
}

/// The phase after the event, from the phase before it.
pub open spec fn spec_lifecycle_apply(p: LifecyclePhase, e: LifecycleEvent) -> LifecyclePhase {
    match (p, e) {
        (LifecyclePhase::Initializing, LifecycleEvent::PlatformReady) => (
        LifecyclePhase::AwaitingBootstrap),
        (LifecyclePhase::AwaitingBootstrap, LifecycleEvent::BootstrapSucceeded) => (
        LifecyclePhase::Running),
        (LifecyclePhase::AwaitingBootstrap, LifecycleEvent::BootstrapFailed) => (
        LifecyclePhase::PresentingError),
        (LifecyclePhase::Running, LifecycleEvent::UiLoopCompleted) => (
        LifecyclePhase::ShuttingDown(ExitOutcome::Normal)),
        (LifecyclePhase::Running, LifecycleEvent::UiLoopExitFailure(code)) => (
        LifecyclePhase::ShuttingDown(ExitOutcome::ExitFailure(code))),
        (LifecyclePhase::Running, LifecycleEvent::UiLoopErrored) => (LifecyclePhase::ShuttingDown(
            ExitOutcome::LoopError,
        )),
        (LifecyclePhase::PresentingError, LifecycleEvent::StartupErrorPresented(code)) => (
        LifecyclePhase::ShuttingDown(ExitOutcome::StartupFailed(code))),
        (LifecyclePhase::ShuttingDown(outcome), LifecycleEvent::RuntimeShutDown {
            tracker_code,
        }) => LifecyclePhase::Terminated(spec_exit_code(outcome, tracker_code)),
        _ => p,
    }
}

/// Moves the lifecycle to the next phase, given how the pending action went.
pub fn lifecycle_apply(phase: &LifecyclePhase, event: &LifecycleEvent) -> (next: LifecyclePhase)
    requires
        lifecycle_event_fits(*phase, *event),
    ensures
        next == spec_lifecycle_apply(*phase, *event),
{
    match (phase, event) {
        (LifecyclePhase::Initializing, LifecycleEvent::PlatformReady) => (
        LifecyclePhase::AwaitingBootstrap),
        (LifecyclePhase::AwaitingBootstrap, LifecycleEvent::BootstrapSucceeded) => (
        LifecyclePhase::Running),
        (LifecyclePhase::AwaitingBootstrap, LifecycleEvent::BootstrapFailed) => (
        LifecyclePhase::PresentingError),
        (LifecyclePhase::Running, LifecycleEvent::UiLoopCompleted) => (
        LifecyclePhase::ShuttingDown(ExitOutcome::Normal)),
        (LifecyclePhase::Running, LifecycleEvent::UiLoopExitFailure(code)) => (
        LifecyclePhase::ShuttingDown(ExitOutcome::ExitFailure(*code))),
        (LifecyclePhase::Running, LifecycleEvent::UiLoopErrored) => (LifecyclePhase::ShuttingDown(
            ExitOutcome::LoopError,
        )),
        (LifecyclePhase::PresentingError, LifecycleEvent::StartupErrorPresented(code)) => (
        LifecyclePhase::ShuttingDown(ExitOutcome::StartupFailed(*code))),
        (LifecyclePhase::ShuttingDown(outcome), LifecycleEvent::RuntimeShutDown {
            tracker_code,
        }) => LifecyclePhase::Terminated(map_exit_code(outcome, *tracker_code)),
        _ => *phase,
    }
}

/// Some fitting event takes `a` to `b`.
pub open spec fn lifecycle_steps_to(a: LifecyclePhase, b: LifecyclePhase) -> bool {
    exists|e: LifecycleEvent| #[trigger] lifecycle_event_fits(a, e) && b == spec_lifecycle_apply(
        a,
        e,
    )
}

/// A pass of the driver: it starts at `Initializing` and every move is a
/// step.
pub open spec fn valid_lifecycle_trace(tr: Seq<LifecyclePhase>) -> bool {
    &&& tr.len() >= 1
    &&& tr[0] == LifecyclePhase::Initializing
    &&& forall|i: int|
        #![trigger tr[i]]
        0 <= i < tr.len() - 1 ==> lifecycle_steps_to(tr[i], tr[i + 1])
}

/// How far through the pass a phase stands.  The two ways bootstrap can end
/// share a stage: every pass goes through one of them, then shuts down.
pub open spec fn lifecycle_rank(p: LifecyclePhase) -> int {
    match p {
        LifecyclePhase::Initializing => 0,
        LifecyclePhase::AwaitingBootstrap => 1,
        LifecyclePhase::Running => 2,
        LifecyclePhase::PresentingError => 2,
        LifecyclePhase::ShuttingDown(_) => 3,
        LifecyclePhase::Terminated(_) => 4,
    }
}

/// In a pass of the driver, the phase at position `i` stands at stage `i`.
pub proof fn lemma_lifecycle_trace_shape(tr: Seq<LifecyclePhase>)
    requires
        valid_lifecycle_trace(tr),
    ensures
        forall|i: int| 0 <= i < tr.len() ==> #[trigger] lifecycle_rank(tr[i]) == i,
    decreases tr.len(),
{
    if tr.len() > 1 {
        let prefix = tr.drop_last();
        assert(valid_lifecycle_trace(prefix)) by {
            assert(prefix[0] == tr[0]);
            assert forall|i: int|
                #![trigger prefix[i]]
                0 <= i < prefix.len() - 1 implies lifecycle_steps_to(prefix[i], prefix[i + 1]) by {
                assert(prefix[i] == tr[i] && prefix[i + 1] == tr[i + 1]);
            }
        }
        lemma_lifecycle_trace_shape(prefix);
        let n = tr.len() - 1;
        assert(prefix[n - 1] == tr[n - 1]);
        assert(lifecycle_steps_to(tr[n - 1], tr[n]));
        let e = choose|e: LifecycleEvent|
            #[trigger] lifecycle_event_fits(tr[n - 1], e) && tr[n] == spec_lifecycle_apply(
                tr[n - 1],
                e,
            );
        assert forall|i: int| 0 <= i < tr.len() implies #[trigger] lifecycle_rank(tr[i]) == i by {
            if i < n {
                assert(prefix[i] == tr[i]);
            }
        }
    }
}

/// Law: a complete pass of the driver — however bootstrap and the UI loop
/// ended — passes through the shutdown phase exactly once, and the bounded
/// runtime shutdown is the one action requested there.
pub proof fn lemma_shutdown_exactly_once(tr: Seq<LifecyclePhase>)
    requires
        valid_lifecycle_trace(tr),
        tr[tr.len() - 1] is Terminated,
    ensures
        tr.len() == 5,
        tr[3] is ShuttingDown,
        forall|i: int| 0 <= i < tr.len() && i != 3 ==> !(tr[i] is ShuttingDown),
        spec_lifecycle_action(tr[3]) == LifecycleAction::ShutdownRuntime,
{
    lemma_lifecycle_trace_shape(tr);
    assert(lifecycle_rank(tr[tr.len() - 1]) == tr.len() - 1);
    assert(tr.len() == 5);
    assert(lifecycle_rank(tr[3]) == 3);
    assert forall|i: int| 0 <= i < tr.len() && i != 3 implies !(tr[i] is ShuttingDown) by {
        assert(lifecycle_rank(tr[i]) == i);
    }
}

} // verus!

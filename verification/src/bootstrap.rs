//! The bootstrap sequencer: the ordered steps that take the process from a
//! bare event loop to a launched backend runtime, each step a potential
//! failure point.
//!
//! The sequence itself is a state machine: a phase names what has been done
//! so far, `bootstrap_next_action` says what must happen next, and
//! `bootstrap_apply` moves to the next phase once the outside world reported
//! how that step went.  The driver that owns the real collaborators (the
//! settings store, the window system, the editor runtime) performs each
//! action and feeds the outcome back.

use vstd::prelude::*;

verus! {

/// Why bootstrap failed, by kind.
#[derive(Clone, Copy, Debug, PartialEq, Eq, Structural)]
pub enum StartupErrorKind {
    ArgumentParsing,
    ConfigLoad,
    RuntimeLaunch,
}

/// Why bootstrap failed, with the collaborator's own message.
#[derive(Debug)]
pub enum StartupError {
    ArgumentParsing(String),
    ConfigLoad(String),
    RuntimeLaunch(String),
}

/// The kind of a startup error.
pub open spec fn spec_startup_error_kind(e: StartupError) -> StartupErrorKind {
    match e {
        StartupError::ArgumentParsing(_) => StartupErrorKind::ArgumentParsing,
        StartupError::ConfigLoad(_) => StartupErrorKind::ConfigLoad,
        StartupError::RuntimeLaunch(_) => StartupErrorKind::RuntimeLaunch,
    }
}

impl StartupError {
    /// The kind of this error.
    pub fn kind(&self) -> (k: StartupErrorKind)
        ensures
            k == spec_startup_error_kind(*self),
    {
        match self {
            StartupError::ArgumentParsing(_) => StartupErrorKind::ArgumentParsing,
            StartupError::ConfigLoad(_) => StartupErrorKind::ConfigLoad,
            StartupError::RuntimeLaunch(_) => StartupErrorKind::RuntimeLaunch,
        }
    }

    /// The collaborator's message carried by this error.
    pub fn message(&self) -> (m: &String)
        ensures
            m@ == spec_startup_error_message(*self),
    {
        match self {
            StartupError::ArgumentParsing(m) => m,
            StartupError::ConfigLoad(m) => m,
            StartupError::RuntimeLaunch(m) => m,
        }
    }
}

/// The message carried by a startup error.
pub open spec fn spec_startup_error_message(e: StartupError) -> Seq<char> {
    match e {
        StartupError::ArgumentParsing(m) => m@,
        StartupError::ConfigLoad(m) => m@,
        StartupError::RuntimeLaunch(m) => m@,
    }
}

/// An initial grid geometry, in cells.
#[derive(Clone, Copy, Debug, PartialEq, Eq, Structural)]
pub struct GridSize {
    pub columns: u64,
    pub rows: u64,
}

/// The initial window geometry the UI loop starts from.
#[derive(Clone, Copy, Debug, PartialEq, Eq, Structural)]
pub enum WindowSize {
    Grid(GridSize),
    Dimensions { width: u64, height: u64 },
    Maximized,
}

/// Window geometry persisted by an earlier run.
#[derive(Clone, Copy, Debug, PartialEq, Eq, Structural)]
pub enum PersistentWindowSettings {
    Maximized { grid_size: Option<GridSize> },
    Windowed { grid_size: Option<GridSize> },
}

/// The grid the runtime is launched with: the resolved window size when it is
/// a grid, else whatever grid the persisted settings remember, else nothing.
pub open spec fn spec_initial_grid_size(
    window_size: WindowSize,
    persisted: Option<PersistentWindowSettings>,
) -> Option<GridSize> {
    match window_size {
        WindowSize::Grid(g) => Some(g),
        _ => match persisted {
            Some(PersistentWindowSettings::Maximized { grid_size }) => grid_size,
            Some(PersistentWindowSettings::Windowed { grid_size }) => grid_size,
            None => None,
        },
    }
}

/// Picks the grid size handed to the backend runtime at launch.
pub fn resolve_initial_grid_size(
    window_size: &WindowSize,
    persisted: &Option<PersistentWindowSettings>,
) -> (r: Option<GridSize>)
    ensures
        r == spec_initial_grid_size(*window_size, *persisted),
{
    match window_size {
        WindowSize::Grid(g) => Some(*g),
        _ => match persisted {
            Some(PersistentWindowSettings::Maximized { grid_size }) => *grid_size,
            Some(PersistentWindowSettings::Windowed { grid_size }) => *grid_size,
            None => None,
        },
    }
}

/// Whether the process should re-spawn itself detached from its terminal:
/// only when the fork setting asks for it and the process is attached to an
/// interactive terminal.
pub fn should_disown(fork_requested: bool, attached_to_tty: bool) -> (r: bool)
    ensures
        r == (fork_requested && attached_to_tty),
{
    fork_requested && attached_to_tty
}

/// The logger's environment filter: the whole crate when logging to a file,
/// errors only otherwise.
pub fn logger_env_filter(log_to_file: bool) -> (r: &'static str)
    ensures
        log_to_file ==> r@ == "neovide"@,
        !log_to_file ==> r@ == "neovide = error"@,
{
    if log_to_file {
        "neovide"
    } else {
        "neovide = error"
    }
}

/// How far bootstrap has come.
#[derive(Clone, Copy, Debug, PartialEq, Eq, Structural)]
pub enum BootstrapPhase {
    /// Nothing done yet.
    Start,
    /// The known setting groups are registered in the settings store.
    SettingsRegistered,
    /// Config is loaded (or defaulted) and the file watcher was started,
    /// or its failure to start was logged.
    ConfigLoaded,
    /// The Config-aware panic hook has replaced the initial one.
    ConfigHookInstalled,
    /// The command-line arguments are parsed into the settings store.
    ArgumentsParsed,
    /// The process decided not to re-spawn itself detached (had it done so,
    /// the parent would never reach this phase).
    DisownResolved,
    /// Logging is initialized.
    LoggingInitialized,
    /// Persisted window settings were combined with the current settings
    /// into a window size.
    WindowSizeResolved,
    /// The backend runtime is constructed and launched: bootstrap succeeded.
    Launched,
    /// Bootstrap failed; the sequence is over.
    Failed(StartupErrorKind),
}

/// What the outside world reported about the step just performed.
#[derive(Clone, Copy, Debug, PartialEq, Eq, Structural)]
pub enum BootstrapEvent {
    SettingsGroupsRegistered,
    ConfigReady { watcher_started: bool },
    ConfigHookReplaced,
    ArgumentsAccepted,
    ArgumentsRejected,
    DisownSkipped,
    LoggingReady,
    WindowSizeDetermined,
    RuntimeLaunched,
    RuntimeFailed,
}

/// What the driver must do next in a given phase.
#[derive(Clone, Copy, Debug, PartialEq, Eq, Structural)]
pub enum BootstrapAction {
    RegisterSettings,
    LoadConfig,
    InstallConfigHook,
    ParseArguments,
    MaybeDisown,
    InitLogging,
    ResolveWindowSize,
    LaunchRuntime,
    Succeed,
    Fail(StartupErrorKind),
}

/// The one action pending in each phase.
pub open spec fn spec_bootstrap_action(p: BootstrapPhase) -> BootstrapAction {
    match p {
        BootstrapPhase::Start => BootstrapAction::RegisterSettings,
        BootstrapPhase::SettingsRegistered => BootstrapAction::LoadConfig,
        BootstrapPhase::ConfigLoaded => BootstrapAction::InstallConfigHook,
        BootstrapPhase::ConfigHookInstalled => BootstrapAction::ParseArguments,
        BootstrapPhase::ArgumentsParsed => BootstrapAction::MaybeDisown,
        BootstrapPhase::DisownResolved => BootstrapAction::InitLogging,
        BootstrapPhase::LoggingInitialized => BootstrapAction::ResolveWindowSize,
        BootstrapPhase::WindowSizeResolved => BootstrapAction::LaunchRuntime,
        BootstrapPhase::Launched => BootstrapAction::Succeed,
        BootstrapPhase::Failed(k) => BootstrapAction::Fail(k),
    }
}

/// What the driver must do next in the given phase.
pub fn bootstrap_next_action(phase: &BootstrapPhase) -> (a: BootstrapAction)
    ensures
        a == spec_bootstrap_action(*phase),
{
    match phase {
        BootstrapPhase::Start => BootstrapAction::RegisterSettings,
        BootstrapPhase::SettingsRegistered => BootstrapAction::LoadConfig,
        BootstrapPhase::ConfigLoaded => BootstrapAction::InstallConfigHook,
        BootstrapPhase::ConfigHookInstalled => BootstrapAction::ParseArguments,
        BootstrapPhase::ArgumentsParsed => BootstrapAction::MaybeDisown,
        BootstrapPhase::DisownResolved => BootstrapAction::InitLogging,
        BootstrapPhase::LoggingInitialized => BootstrapAction::ResolveWindowSize,
        BootstrapPhase::WindowSizeResolved => BootstrapAction::LaunchRuntime,
        BootstrapPhase::Launched => BootstrapAction::Succeed,
        BootstrapPhase::Failed(k) => BootstrapAction::Fail(*k),
    }
}

/// The event is a possible outcome of the phase's pending action.
pub open spec fn bootstrap_event_fits(p: BootstrapPhase, e: BootstrapEvent) -> bool {
    match (p, e) {
        (BootstrapPhase::Start, BootstrapEvent::SettingsGroupsRegistered) => true,
        (BootstrapPhase::SettingsRegistered, BootstrapEvent::ConfigReady { .. }) => true,
        (BootstrapPhase::ConfigLoaded, BootstrapEvent::ConfigHookReplaced) => true,
        (BootstrapPhase::ConfigHookInstalled, BootstrapEvent::ArgumentsAccepted) => true,
        (BootstrapPhase::ConfigHookInstalled, BootstrapEvent::ArgumentsRejected) => true,
        (BootstrapPhase::ArgumentsParsed, BootstrapEvent::DisownSkipped) => true,
        (BootstrapPhase::DisownResolved, BootstrapEvent::LoggingReady) => true,
        (BootstrapPhase::LoggingInitialized, BootstrapEvent::WindowSizeDetermined) => true,
        (BootstrapPhase::WindowSizeResolved, BootstrapEvent::RuntimeLaunched) => true,
        (BootstrapPhase::WindowSizeResolved, BootstrapEvent::RuntimeFailed) => true,
        _ => false,
    }
}

/// The phase after the event, from the phase before it.
pub open spec fn spec_bootstrap_apply(p: BootstrapPhase, e: BootstrapEvent) -> BootstrapPhase {
    match (p, e) {
        (BootstrapPhase::Start, BootstrapEvent::SettingsGroupsRegistered) => (
        BootstrapPhase::SettingsRegistered),
        (BootstrapPhase::SettingsRegistered, BootstrapEvent::ConfigReady { .. }) => (
        BootstrapPhase::ConfigLoaded),
        (BootstrapPhase::ConfigLoaded, BootstrapEvent::ConfigHookReplaced) => (
        BootstrapPhase::ConfigHookInstalled),
        (BootstrapPhase::ConfigHookInstalled, BootstrapEvent::ArgumentsAccepted) => (
        BootstrapPhase::ArgumentsParsed),
        (BootstrapPhase::ConfigHookInstalled, BootstrapEvent::ArgumentsRejected) => (
        BootstrapPhase::Failed(StartupErrorKind::ArgumentParsing)),
        (BootstrapPhase::ArgumentsParsed, BootstrapEvent::DisownSkipped) => (
        BootstrapPhase::DisownResolved),
        (BootstrapPhase::DisownResolved, BootstrapEvent::LoggingReady) => (
        BootstrapPhase::LoggingInitialized),
        (BootstrapPhase::LoggingInitialized, BootstrapEvent::WindowSizeDetermined) => (
        BootstrapPhase::WindowSizeResolved),
        (BootstrapPhase::WindowSizeResolved, BootstrapEvent::RuntimeLaunched) => (
        BootstrapPhase::Launched),
        (BootstrapPhase::WindowSizeResolved, BootstrapEvent::RuntimeFailed) => (
        BootstrapPhase::Failed(StartupErrorKind::RuntimeLaunch)),
        _ => p,
    }
}

/// Moves bootstrap to the next phase, given how the pending step went.
pub fn bootstrap_apply(phase: &BootstrapPhase, event: &BootstrapEvent) -> (next: BootstrapPhase)
    requires
        bootstrap_event_fits(*phase, *event),
    ensures
        next == spec_bootstrap_apply(*phase, *event),
{
    match (phase, event) {
        (BootstrapPhase::Start, BootstrapEvent::SettingsGroupsRegistered) => (
        BootstrapPhase::SettingsRegistered),
        (BootstrapPhase::SettingsRegistered, BootstrapEvent::ConfigReady { .. }) => (
        BootstrapPhase::ConfigLoaded),
        (BootstrapPhase::ConfigLoaded, BootstrapEvent::ConfigHookReplaced) => (
        BootstrapPhase::ConfigHookInstalled),
        (BootstrapPhase::ConfigHookInstalled, BootstrapEvent::ArgumentsAccepted) => (
        BootstrapPhase::ArgumentsParsed),
        (BootstrapPhase::ConfigHookInstalled, BootstrapEvent::ArgumentsRejected) => (
        BootstrapPhase::Failed(StartupErrorKind::ArgumentParsing)),
        (BootstrapPhase::ArgumentsParsed, BootstrapEvent::DisownSkipped) => (
        BootstrapPhase::DisownResolved),
        (BootstrapPhase::DisownResolved, BootstrapEvent::LoggingReady) => (
        BootstrapPhase::LoggingInitialized),
        (BootstrapPhase::LoggingInitialized, BootstrapEvent::WindowSizeDetermined) => (
        BootstrapPhase::WindowSizeResolved),
        (BootstrapPhase::WindowSizeResolved, BootstrapEvent::RuntimeLaunched) => (
        BootstrapPhase::Launched),
        (BootstrapPhase::WindowSizeResolved, BootstrapEvent::RuntimeFailed) => (
        BootstrapPhase::Failed(StartupErrorKind::RuntimeLaunch)),
        _ => *phase,
    }
}

/// Some fitting event takes `a` to `b`.
pub open spec fn bootstrap_steps_to(a: BootstrapPhase, b: BootstrapPhase) -> bool {
    exists|e: BootstrapEvent| #[trigger] bootstrap_event_fits(a, e) && b == spec_bootstrap_apply(a, e)
}

/// A run of the sequencer: it starts at `Start` and every move is a step.
pub open spec fn valid_bootstrap_trace(tr: Seq<BootstrapPhase>) -> bool {
    &&& tr.len() >= 1
    &&& tr[0] == BootstrapPhase::Start
    &&& forall|i: int|
        #![trigger tr[i]]
        0 <= i < tr.len() - 1 ==> bootstrap_steps_to(tr[i], tr[i + 1])
}

/// How many steps of the success path a phase has completed; failure has no
/// rank.
pub open spec fn bootstrap_rank(p: BootstrapPhase) -> int {
    match p {
        BootstrapPhase::Start => 0,
        BootstrapPhase::SettingsRegistered => 1,
        BootstrapPhase::ConfigLoaded => 2,
        BootstrapPhase::ConfigHookInstalled => 3,
        BootstrapPhase::ArgumentsParsed => 4,
        BootstrapPhase::DisownResolved => 5,
        BootstrapPhase::LoggingInitialized => 6,
        BootstrapPhase::WindowSizeResolved => 7,
        BootstrapPhase::Launched => 8,
        BootstrapPhase::Failed(_) => -1,
    }
}

/// In a run of the sequencer, the phase at position `i` has completed exactly
/// `i` steps, and a failure can stand only at the end: nothing follows it.
pub proof fn lemma_bootstrap_trace_shape(tr: Seq<BootstrapPhase>)
    requires
        valid_bootstrap_trace(tr),
    ensures
        forall|i: int|
            0 <= i < tr.len() && !(tr[i] is Failed) ==> #[trigger] bootstrap_rank(tr[i]) == i,
        forall|i: int| 0 <= i < tr.len() && tr[i] is Failed ==> i == tr.len() - 1,
    decreases tr.len(),
{
    if tr.len() > 1 {
        let prefix = tr.drop_last();
        assert(valid_bootstrap_trace(prefix)) by {
            assert(prefix[0] == tr[0]);
            assert forall|i: int|
                #![trigger prefix[i]]
                0 <= i < prefix.len() - 1 implies bootstrap_steps_to(prefix[i], prefix[i + 1]) by {
                assert(prefix[i] == tr[i] && prefix[i + 1] == tr[i + 1]);
            }
        }
        lemma_bootstrap_trace_shape(prefix);
        let n = tr.len() - 1;
        assert(bootstrap_steps_to(tr[n - 1], tr[n]));
        let e = choose|e: BootstrapEvent|
            #[trigger] bootstrap_event_fits(tr[n - 1], e) && tr[n] == spec_bootstrap_apply(
                tr[n - 1],
                e,
            );
        assert(!(tr[n - 1] is Failed));
        assert(prefix[n - 1] == tr[n - 1]);
        assert forall|i: int| 0 <= i < tr.len() && !(tr[i] is Failed) implies #[trigger] bootstrap_rank(
            tr[i],
        ) == i by {
            if i < n {
                assert(prefix[i] == tr[i]);
            }
        }
        assert forall|i: int| 0 <= i < tr.len() && tr[i] is Failed implies i == tr.len() - 1 by {
            if i < n {
                assert(prefix[i] == tr[i]);
            }
        }
    }
}

/// Law: a bootstrap run that launches the runtime installed the Config-aware
/// panic hook exactly once, immediately after Config became available, and
/// strictly before the sequence returned.
pub proof fn lemma_config_hook_after_config_before_return(tr: Seq<BootstrapPhase>)
    requires
        valid_bootstrap_trace(tr),
        tr[tr.len() - 1] == BootstrapPhase::Launched,
    ensures
        tr.len() == 9,
        tr[2] == BootstrapPhase::ConfigLoaded,
        tr[3] == BootstrapPhase::ConfigHookInstalled,
        forall|i: int|
            0 <= i < tr.len() && i != 3 ==> tr[i] != BootstrapPhase::ConfigHookInstalled,
        spec_bootstrap_action(BootstrapPhase::ConfigLoaded) == BootstrapAction::InstallConfigHook,
        3 < tr.len() - 1,
{
    lemma_bootstrap_trace_shape(tr);
    assert(bootstrap_rank(tr[tr.len() - 1]) == tr.len() - 1);
    assert(tr.len() == 9);
    assert(bootstrap_rank(tr[2]) == 2 && !(tr[2] is Failed));
    assert(bootstrap_rank(tr[3]) == 3 && !(tr[3] is Failed));
}

/// Law: when argument parsing fails, bootstrap stops at once with an
/// argument-parsing error; the runtime launch was never requested at any
/// point of the run, and no phase of the run has a launched runtime.
pub proof fn lemma_argument_failure_stops_before_launch(tr: Seq<BootstrapPhase>, k: int)
    requires
        valid_bootstrap_trace(tr),
        0 <= k < tr.len(),
        tr[k] == BootstrapPhase::Failed(StartupErrorKind::ArgumentParsing),
    ensures
        k == tr.len() - 1,
        tr.len() == 5,
        forall|i: int|
            0 <= i < tr.len() ==> spec_bootstrap_action(tr[i]) != BootstrapAction::LaunchRuntime,
        forall|i: int| 0 <= i < tr.len() ==> tr[i] != BootstrapPhase::Launched,
{
    lemma_bootstrap_trace_shape(tr);
    assert(k != 0);
    assert(bootstrap_steps_to(tr[k - 1], tr[k]));
    let e = choose|e: BootstrapEvent|
        #[trigger] bootstrap_event_fits(tr[k - 1], e) && tr[k] == spec_bootstrap_apply(
            tr[k - 1],
            e,
        );
    assert(tr[k - 1] == BootstrapPhase::ConfigHookInstalled);
    assert(bootstrap_rank(tr[k - 1]) == k - 1);
    assert(k == 4);
    assert forall|i: int| 0 <= i < tr.len() implies spec_bootstrap_action(tr[i])
        != BootstrapAction::LaunchRuntime && tr[i] != BootstrapPhase::Launched by {
        if i < 4 {
            assert(bootstrap_rank(tr[i]) == i);
        }
    }
}

} // verus!

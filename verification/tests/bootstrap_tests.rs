use neovide_core::bootstrap::{
    bootstrap_apply, bootstrap_next_action, logger_env_filter, resolve_initial_grid_size,
    should_disown, BootstrapAction, BootstrapEvent, BootstrapPhase, GridSize,
    PersistentWindowSettings, StartupError, StartupErrorKind, WindowSize,
};

fn drive(events: &[BootstrapEvent]) -> (Vec<BootstrapAction>, BootstrapPhase) {
    let mut phase = BootstrapPhase::Start;
    let mut actions = vec![bootstrap_next_action(&phase)];
    for event in events {
        phase = bootstrap_apply(&phase, event);
        actions.push(bootstrap_next_action(&phase));
    }
    (actions, phase)
}

const SUCCESS_EVENTS: [BootstrapEvent; 8] = [
    BootstrapEvent::SettingsGroupsRegistered,
    BootstrapEvent::ConfigReady { watcher_started: true },
    BootstrapEvent::ConfigHookReplaced,
    BootstrapEvent::ArgumentsAccepted,
    BootstrapEvent::DisownSkipped,
    BootstrapEvent::LoggingReady,
    BootstrapEvent::WindowSizeDetermined,
    BootstrapEvent::RuntimeLaunched,
];

#[test]
fn successful_bootstrap_orders_every_step() {
    let (actions, phase) = drive(&SUCCESS_EVENTS);
    assert_eq!(
        actions,
        vec![
            BootstrapAction::RegisterSettings,
            BootstrapAction::LoadConfig,
            BootstrapAction::InstallConfigHook,
            BootstrapAction::ParseArguments,
            BootstrapAction::MaybeDisown,
            BootstrapAction::InitLogging,
            BootstrapAction::ResolveWindowSize,
            BootstrapAction::LaunchRuntime,
            BootstrapAction::Succeed,
        ]
    );
    assert_eq!(phase, BootstrapPhase::Launched);
}

#[test]
fn config_hook_is_installed_once_after_config_and_before_return() {
    let (actions, _) = drive(&SUCCESS_EVENTS);
    let hook_positions: Vec<usize> = actions
        .iter()
        .enumerate()
        .filter(|(_, a)| **a == BootstrapAction::InstallConfigHook)
        .map(|(i, _)| i)
        .collect();
    assert_eq!(hook_positions, vec![2]);
    let load_position = actions
        .iter()
        .position(|a| *a == BootstrapAction::LoadConfig)
        .expect("config must be loaded");
    assert!(load_position < hook_positions[0]);
    assert!(hook_positions[0] < actions.len() - 1);
}

#[test]
fn argument_failure_stops_before_any_launch() {
    let (actions, phase) = drive(&[
        BootstrapEvent::SettingsGroupsRegistered,
        BootstrapEvent::ConfigReady { watcher_started: false },
        BootstrapEvent::ConfigHookReplaced,
        BootstrapEvent::ArgumentsRejected,
    ]);
    assert_eq!(phase, BootstrapPhase::Failed(StartupErrorKind::ArgumentParsing));
    assert!(actions.iter().all(|a| *a != BootstrapAction::LaunchRuntime));
    assert_eq!(
        *actions.last().unwrap(),
        BootstrapAction::Fail(StartupErrorKind::ArgumentParsing)
    );
}

#[test]
fn runtime_failure_fails_with_its_own_kind() {
    let (_, phase) = drive(&[
        BootstrapEvent::SettingsGroupsRegistered,
        BootstrapEvent::ConfigReady { watcher_started: true },
        BootstrapEvent::ConfigHookReplaced,
        BootstrapEvent::ArgumentsAccepted,
        BootstrapEvent::DisownSkipped,
        BootstrapEvent::LoggingReady,
        BootstrapEvent::WindowSizeDetermined,
        BootstrapEvent::RuntimeFailed,
    ]);
    assert_eq!(phase, BootstrapPhase::Failed(StartupErrorKind::RuntimeLaunch));
}

#[test]
fn startup_error_carries_kind_and_message() {
    let err = StartupError::ArgumentParsing(String::from("unknown flag"));
    assert_eq!(err.kind(), StartupErrorKind::ArgumentParsing);
    assert_eq!(err.message(), "unknown flag");
    let err = StartupError::RuntimeLaunch(String::from("no editor"));
    assert_eq!(err.kind(), StartupErrorKind::RuntimeLaunch);
    let err = StartupError::ConfigLoad(String::from("bad toml"));
    assert_eq!(err.kind(), StartupErrorKind::ConfigLoad);
}

#[test]
fn grid_window_size_wins() {
    let grid = GridSize { columns: 80, rows: 24 };
    let persisted = Some(PersistentWindowSettings::Windowed {
        grid_size: Some(GridSize { columns: 100, rows: 50 }),
    });
    assert_eq!(
        resolve_initial_grid_size(&WindowSize::Grid(grid), &persisted),
        Some(grid)
    );
}

#[test]
fn persisted_grid_is_used_when_window_size_is_not_a_grid() {
    let remembered = GridSize { columns: 120, rows: 40 };
    assert_eq!(
        resolve_initial_grid_size(
            &WindowSize::Maximized,
            &Some(PersistentWindowSettings::Maximized { grid_size: Some(remembered) })
        ),
        Some(remembered)
    );
    assert_eq!(
        resolve_initial_grid_size(
            &WindowSize::Dimensions { width: 800, height: 600 },
            &Some(PersistentWindowSettings::Windowed { grid_size: Some(remembered) })
        ),
        Some(remembered)
    );
}

#[test]
fn no_grid_anywhere_yields_none() {
    assert_eq!(resolve_initial_grid_size(&WindowSize::Maximized, &None), None);
    assert_eq!(
        resolve_initial_grid_size(
            &WindowSize::Maximized,
            &Some(PersistentWindowSettings::Windowed { grid_size: None })
        ),
        None
    );
}

#[test]
fn disown_needs_both_the_setting_and_a_terminal() {
    assert!(should_disown(true, true));
    assert!(!should_disown(true, false));
    assert!(!should_disown(false, true));
    assert!(!should_disown(false, false));
}

#[test]
fn logger_filter_follows_the_file_setting() {
    assert_eq!(logger_env_filter(true), "neovide");
    assert_eq!(logger_env_filter(false), "neovide = error");
}

use redpile::config::Config;
use redpile::config::ConfigOutcome;
use redpile::startup::startup_step;
use redpile::startup::Action;
use redpile::startup::StartupEvent;
use redpile::startup::StartupState;

fn test_config(benchmark: u32) -> Config {
    Config {
        world_size: 1024,
        interactive: false,
        port: 0,
        benchmark,
        file: "world.lua".to_string(),
    }
}

fn count(actions: &[Action], a: Action) -> usize {
    actions.iter().filter(|x| **x == a).count()
}

/// Drives a whole run and collects every action, feeding the given
/// outcome and, where the run asks for them, the given load result.
fn drive(outcome: ConfigOutcome, load_ok: bool) -> (StartupState, Vec<Action>) {
    let mut trace: Vec<Action> = Vec::new();
    let (state, acts) = startup_step(StartupState::Begin, StartupEvent::Launch);
    trace.extend(acts);
    let (state, acts) = startup_step(state, StartupEvent::Parsed(outcome));
    trace.extend(acts);
    let mut state = state;
    if matches!(state, StartupState::Loading(_)) {
        let (s, acts) = startup_step(state, StartupEvent::LoadFinished(load_ok));
        trace.extend(acts);
        state = s;
    }
    if matches!(state, StartupState::Running(_)) {
        let (s, acts) = startup_step(state, StartupEvent::ModeFinished);
        trace.extend(acts);
        state = s;
    }
    (state, trace)
}

#[test]
fn launch_installs_signals_first() {
    let (state, acts) = startup_step(StartupState::Begin, StartupEvent::Launch);
    assert!(matches!(state, StartupState::SignalsInstalled));
    assert_eq!(acts, vec![Action::InstallSignals]);
}

#[test]
fn failed_outcome_prints_error_and_exits_nonzero() {
    let (state, trace) = drive(ConfigOutcome::Failed("no good".to_string()), false);
    assert!(matches!(state, StartupState::Ended(false)));
    assert_eq!(trace, vec![Action::InstallSignals, Action::PrintError]);
}

#[test]
fn done_outcome_prints_notice_and_exits_zero() {
    let (state, trace) = drive(ConfigOutcome::Done("usage".to_string()), false);
    assert!(matches!(state, StartupState::Ended(true)));
    assert_eq!(trace, vec![Action::InstallSignals, Action::PrintNotice]);
}

#[test]
fn load_failure_frees_script_state_exactly_once() {
    let (state, trace) = drive(ConfigOutcome::Ready(test_config(0)), false);
    assert!(matches!(state, StartupState::Ended(false)));
    assert_eq!(count(&trace, Action::FreeScriptState), 1);
    assert_eq!(count(&trace, Action::AllocWorld), 0);
    assert_eq!(count(&trace, Action::FullCleanup), 0);
    assert_eq!(
        trace,
        vec![
            Action::InstallSignals,
            Action::AllocScriptState,
            Action::LoadScript,
            Action::FreeScriptState,
        ]
    );
}

#[test]
fn valid_interactive_run_cleans_up_exactly_once() {
    let (state, trace) = drive(ConfigOutcome::Ready(test_config(0)), true);
    assert!(matches!(state, StartupState::Ended(true)));
    assert_eq!(count(&trace, Action::FullCleanup), 1);
    assert_eq!(count(&trace, Action::FreeScriptState), 0);
    assert_eq!(trace.last(), Some(&Action::FullCleanup));
    assert_eq!(count(&trace, Action::RunInteractive), 1);
    assert_eq!(count(&trace, Action::RunBenchmark), 0);
}

#[test]
fn valid_benchmark_run_cleans_up_exactly_once() {
    let (state, trace) = drive(ConfigOutcome::Ready(test_config(500)), true);
    assert!(matches!(state, StartupState::Ended(true)));
    assert_eq!(count(&trace, Action::FullCleanup), 1);
    assert_eq!(count(&trace, Action::RunBenchmark), 1);
    assert_eq!(count(&trace, Action::RunInteractive), 0);
    assert_eq!(
        trace,
        vec![
            Action::InstallSignals,
            Action::AllocScriptState,
            Action::LoadScript,
            Action::AllocWorld,
            Action::RegisterGlobals,
            Action::RunBenchmark,
            Action::FullCleanup,
        ]
    );
}

#[test]
fn events_out_of_turn_change_nothing() {
    let (state, acts) = startup_step(StartupState::Begin, StartupEvent::ModeFinished);
    assert!(matches!(state, StartupState::Begin));
    assert!(acts.is_empty());
    let (state, acts) = startup_step(
        StartupState::Ended(true),
        StartupEvent::LoadFinished(true),
    );
    assert!(matches!(state, StartupState::Ended(true)));
    assert!(acts.is_empty());
}

//! Startup orchestration: the ordered steps from process launch to exit.
//!
//! The native core performs the outside work — signals, the scripting
//! engine, world storage, the two run modes, cleanup — while every
//! decision between those calls lives here, as a state machine. The
//! caller feeds each event as it happens and performs the returned
//! actions in order; the run as a whole is a function of just two
//! inputs, the configuration outcome and the script-load result, and
//! the resource laws below are proved over that function.

use vstd::prelude::*;

use crate::config::port_ok;
use crate::config::validate_model;
use crate::config::world_size_ok;
use crate::config::Config;
use crate::config::ConfigOutcome;
use crate::config::OutcomeModel;
use crate::digits::dec_digits_of;
use crate::digits::dec_str_val;
use crate::digits::dec_val;
use crate::digits::digit_val;
use crate::digits::is_dec_str;

verus! {

/// The run mode execution is dispatched into.
#[derive(Clone, Copy, PartialEq, Eq, Structural, Debug)]
pub enum RunMode {
    /// Exercise the world for this many milliseconds.
    Benchmark(u32),
    /// Enter the interactive command loop.
    Interactive,
}

/// Which mode a benchmark setting selects: its presence alone decides.
pub open spec fn spec_dispatch(benchmark: u32) -> RunMode {
    if benchmark > 0 {
        RunMode::Benchmark(benchmark)
    } else {
        RunMode::Interactive
    }
}

/// Pure mode selection. The interactive flag and the port are forwarded
/// elsewhere but never examined here.
pub fn dispatch_mode(config: &Config) -> (m: RunMode)
    ensures
        m == spec_dispatch(config.benchmark),
{
    if config.benchmark > 0 {
        RunMode::Benchmark(config.benchmark)
    } else {
        RunMode::Interactive
    }
}

/// One call the orchestration asks its caller to make. The values an
/// action needs — the script path, the world size, the message or notice
/// to print — travel in the configuration and the outcome the caller
/// already holds, not in the action itself.
#[derive(Clone, Copy, PartialEq, Eq, Structural, Debug)]
pub enum Action {
    /// Install process-termination signal handling.
    InstallSignals,
    /// Print the prepared help or version text to standard output.
    PrintNotice,
    /// Print the failure message to the error stream.
    PrintError,
    /// Allocate the scripting-state resource.
    AllocScriptState,
    /// Load the configured file into the scripting state.
    LoadScript,
    /// Release the scripting-state resource.
    FreeScriptState,
    /// Allocate the world from the validated size and the loaded types.
    AllocWorld,
    /// Register the run context with the native core.
    RegisterGlobals,
    /// Run the benchmark for the configured duration.
    RunBenchmark,
    /// Run the interactive command loop.
    RunInteractive,
    /// Release every remaining resource.
    FullCleanup,
}

/// What the world reports back to the orchestration.
#[derive(Clone, Debug)]
pub enum StartupEvent {
    /// The process started.
    Launch,
    /// Configuration work finished with this outcome.
    Parsed(ConfigOutcome),
    /// The script load finished; `true` means type data was produced.
    LoadFinished(bool),
    /// The dispatched mode returned.
    ModeFinished,
}

/// Where the orchestration stands.
#[derive(Clone, Debug)]
pub enum StartupState {
    /// Nothing has happened yet.
    Begin,
    /// Signals are installed; configuration work may proceed.
    SignalsInstalled,
    /// The scripting state exists and a load is under way.
    Loading(Config),
    /// The world exists and the selected mode is running.
    Running(Config),
    /// The process is done; `true` means a success status.
    Ended(bool),
}

/// The transition relation: the next state and the actions to perform,
/// in order. Events that do not belong to the current state change
/// nothing.
pub open spec fn startup_next(s: StartupState, e: StartupEvent) -> (StartupState, Seq<Action>) {
    match (s, e) {
        (StartupState::Begin, StartupEvent::Launch) => (
            StartupState::SignalsInstalled,
            seq![Action::InstallSignals],
        ),
        (StartupState::SignalsInstalled, StartupEvent::Parsed(outcome)) => match outcome {
            ConfigOutcome::Ready(c) => (
                StartupState::Loading(c),
                seq![Action::AllocScriptState, Action::LoadScript],
            ),
            ConfigOutcome::Done(_) => (StartupState::Ended(true), seq![Action::PrintNotice]),
            ConfigOutcome::Failed(_) => (StartupState::Ended(false), seq![Action::PrintError]),
        },
        (StartupState::Loading(c), StartupEvent::LoadFinished(ok)) => if ok {
            (
                StartupState::Running(c),
                seq![
                    Action::AllocWorld,
                    Action::RegisterGlobals,
                    (if c.benchmark > 0 {
                        Action::RunBenchmark
                    } else {
                        Action::RunInteractive
                    }),
                ],
            )
        } else {
            (StartupState::Ended(false), seq![Action::FreeScriptState])
        },
        (StartupState::Running(_), StartupEvent::ModeFinished) => (
            StartupState::Ended(true),
            seq![Action::FullCleanup],
        ),
        (other, _) => (other, Seq::empty()),
    }
}

/// Advances the orchestration by one event, exactly as [`startup_next`]
/// describes.
pub fn startup_step(state: StartupState, event: StartupEvent) -> (r: (StartupState, Vec<Action>))
    ensures
        r.0 == startup_next(state, event).0,
        r.1@ == startup_next(state, event).1,
{
    match (state, event) {
        (StartupState::Begin, StartupEvent::Launch) => (
            StartupState::SignalsInstalled,
            vec![Action::InstallSignals],
        ),
        (StartupState::SignalsInstalled, StartupEvent::Parsed(outcome)) => match outcome {
            ConfigOutcome::Ready(c) => (
                StartupState::Loading(c),
                vec![Action::AllocScriptState, Action::LoadScript],
            ),
            ConfigOutcome::Done(_) => (StartupState::Ended(true), vec![Action::PrintNotice]),
            ConfigOutcome::Failed(_) => (StartupState::Ended(false), vec![Action::PrintError]),
        },
        (StartupState::Loading(c), StartupEvent::LoadFinished(ok)) => {
            if ok {
                let run = if c.benchmark > 0 {
                    Action::RunBenchmark
                } else {
                    Action::RunInteractive
                };
                (
                    StartupState::Running(c),
                    vec![Action::AllocWorld, Action::RegisterGlobals, run],
                )
            } else {
                (StartupState::Ended(false), vec![Action::FreeScriptState])
            }
        },
        (StartupState::Running(_), StartupEvent::ModeFinished) => (
            StartupState::Ended(true),
            vec![Action::FullCleanup],
        ),
        (other, _) => (other, Vec::new()),
    }
}

/// The events of a whole run: the launch, the configuration outcome,
/// then — only once a configuration was ready — the load result, and —
/// only once the load succeeded — the end of the dispatched mode.
pub open spec fn run_events(outcome: ConfigOutcome, load_ok: bool) -> Seq<StartupEvent> {
    match outcome {
        ConfigOutcome::Ready(_) => if load_ok {
            seq![
                StartupEvent::Launch,
                StartupEvent::Parsed(outcome),
                StartupEvent::LoadFinished(true),
                StartupEvent::ModeFinished,
            ]
        } else {
            seq![
                StartupEvent::Launch,
                StartupEvent::Parsed(outcome),
                StartupEvent::LoadFinished(false),
            ]
        },
        _ => seq![StartupEvent::Launch, StartupEvent::Parsed(outcome)],
    }
}

/// Runs the machine over a sequence of events, collecting every action.
pub open spec fn run_from(s: StartupState, events: Seq<StartupEvent>) -> (StartupState, Seq<
    Action,
>)
    decreases events.len(),
{
    if events.len() == 0 {
        (s, Seq::empty())
    } else {
        let first = startup_next(s, events[0]);
        let rest = run_from(first.0, events.subrange(1, events.len() as int));
        (rest.0, first.1 + rest.1)
    }
}

/// A whole run, as a function of its two inputs: the state it ends in
/// and the actions performed, in order.
pub open spec fn run_result(outcome: ConfigOutcome, load_ok: bool) -> (StartupState, Seq<
    Action,
>) {
    run_from(StartupState::Begin, run_events(outcome, load_ok))
}

/// How many times `a` occurs in `t`.
pub open spec fn count_action(t: Seq<Action>, a: Action) -> nat
    decreases t.len(),
{
    if t.len() == 0 {
        0
    } else {
        count_action(t.drop_last(), a) + (if t.last() == a {
            1nat
        } else {
            0nat
        })
    }
}

/// Counting distributes over concatenation.
proof fn lemma_count_action_concat(s: Seq<Action>, t: Seq<Action>, a: Action)
    ensures
        count_action(s + t, a) == count_action(s, a) + count_action(t, a),
    decreases t.len(),
{
    if t.len() == 0 {
        assert(s + t =~= s);
    } else {
        assert((s + t).drop_last() =~= s + t.drop_last());
        lemma_count_action_concat(s, t.drop_last(), a);
    }
}

/// The actions of a run that ends during configuration work: signals,
/// then one line of output when there is something to say.
proof fn lemma_run_trace_early(outcome: ConfigOutcome, load_ok: bool)
    requires
        !(outcome is Ready),
    ensures
        run_result(outcome, load_ok).1 =~= seq![Action::InstallSignals]
            + startup_next(StartupState::SignalsInstalled, StartupEvent::Parsed(outcome)).1,
        run_result(outcome, load_ok).0 == StartupState::Ended(outcome is Done),
{
    reveal_with_fuel(run_from, 4);
    let evs = run_events(outcome, load_ok);
    assert(evs =~= seq![StartupEvent::Launch, StartupEvent::Parsed(outcome)]);
    assert(evs.subrange(1, 2) =~= seq![StartupEvent::Parsed(outcome)]);
    assert(evs.subrange(1, 2).subrange(1, 1) =~= Seq::<StartupEvent>::empty());
}

/// The actions of a run whose script load failed.
proof fn lemma_run_trace_load_failed(outcome: ConfigOutcome)
    requires
        outcome is Ready,
    ensures
        run_result(outcome, false).1 =~= seq![
            Action::InstallSignals,
            Action::AllocScriptState,
            Action::LoadScript,
            Action::FreeScriptState,
        ],
        run_result(outcome, false).0 == StartupState::Ended(false),
{
    reveal_with_fuel(run_from, 5);
    let evs = run_events(outcome, false);
    assert(evs =~= seq![
        StartupEvent::Launch,
        StartupEvent::Parsed(outcome),
        StartupEvent::LoadFinished(false),
    ]);
    let e1 = evs.subrange(1, 3);
    assert(e1 =~= seq![StartupEvent::Parsed(outcome), StartupEvent::LoadFinished(false)]);
    let e2 = e1.subrange(1, 2);
    assert(e2 =~= seq![StartupEvent::LoadFinished(false)]);
    assert(e2.subrange(1, 1) =~= Seq::<StartupEvent>::empty());
}

/// The actions of a run that reached its mode and finished.
proof fn lemma_run_trace_complete(outcome: ConfigOutcome)
    requires
        outcome is Ready,
    ensures
        run_result(outcome, true).1 =~= seq![
            Action::InstallSignals,
            Action::AllocScriptState,
            Action::LoadScript,
            Action::AllocWorld,
            Action::RegisterGlobals,
            (if outcome->Ready_0.benchmark > 0 {
                Action::RunBenchmark
            } else {
                Action::RunInteractive
            }),
            Action::FullCleanup,
        ],
        run_result(outcome, true).0 == StartupState::Ended(true),
{
    reveal_with_fuel(run_from, 6);
    let evs = run_events(outcome, true);
    assert(evs =~= seq![
        StartupEvent::Launch,
        StartupEvent::Parsed(outcome),
        StartupEvent::LoadFinished(true),
        StartupEvent::ModeFinished,
    ]);
    let e1 = evs.subrange(1, 4);
    assert(e1 =~= seq![
        StartupEvent::Parsed(outcome),
        StartupEvent::LoadFinished(true),
        StartupEvent::ModeFinished,
    ]);
    let e2 = e1.subrange(1, 3);
    assert(e2 =~= seq![StartupEvent::LoadFinished(true), StartupEvent::ModeFinished]);
    let e3 = e2.subrange(1, 2);
    assert(e3 =~= seq![StartupEvent::ModeFinished]);
    assert(e3.subrange(1, 1) =~= Seq::<StartupEvent>::empty());
}

/// Law (load failure): when the configuration was ready but the script
/// load failed, the run releases the scripting state exactly once,
/// never allocates the world, never reaches final cleanup, and ends
/// with a failure status.
pub proof fn lemma_load_failure_releases_once(outcome: ConfigOutcome)
    requires
        outcome is Ready,
    ensures
        run_result(outcome, false).0 == StartupState::Ended(false),
        count_action(run_result(outcome, false).1, Action::FreeScriptState) == 1,
        count_action(run_result(outcome, false).1, Action::AllocScriptState) == 1,
        count_action(run_result(outcome, false).1, Action::AllocWorld) == 0,
        count_action(run_result(outcome, false).1, Action::FullCleanup) == 0,
{
    lemma_run_trace_load_failed(outcome);
    reveal_with_fuel(count_action, 6);
}

/// Law (clean completion): when the configuration was ready and the
/// script load succeeded, the run reaches full cleanup exactly once, as
/// its very last action, never takes the direct release path, and ends
/// with a success status.
pub proof fn lemma_valid_run_cleans_up_once(outcome: ConfigOutcome)
    requires
        outcome is Ready,
    ensures
        run_result(outcome, true).0 == StartupState::Ended(true),
        count_action(run_result(outcome, true).1, Action::FullCleanup) == 1,
        count_action(run_result(outcome, true).1, Action::FreeScriptState) == 0,
        run_result(outcome, true).1.len() == 7,
        run_result(outcome, true).1.last() == Action::FullCleanup,
{
    lemma_run_trace_complete(outcome);
    reveal_with_fuel(count_action, 9);
}

/// Law (release discipline): every run installs signals first, and the
/// scripting state is released — on the load-failure path or by final
/// cleanup — exactly as often as it was allocated.
pub proof fn lemma_release_discipline(outcome: ConfigOutcome, load_ok: bool)
    ensures
        run_result(outcome, load_ok).1.len() >= 1,
        run_result(outcome, load_ok).1[0] == Action::InstallSignals,
        count_action(run_result(outcome, load_ok).1, Action::FreeScriptState) + count_action(
            run_result(outcome, load_ok).1,
            Action::FullCleanup,
        ) == count_action(run_result(outcome, load_ok).1, Action::AllocScriptState),
        count_action(run_result(outcome, load_ok).1, Action::AllocScriptState) <= 1,
{
    reveal_with_fuel(count_action, 9);
    if outcome is Ready {
        if load_ok {
            lemma_run_trace_complete(outcome);
        } else {
            lemma_run_trace_load_failed(outcome);
        }
    } else {
        lemma_run_trace_early(outcome, load_ok);
        let tail = startup_next(StartupState::SignalsInstalled, StartupEvent::Parsed(outcome)).1;
        lemma_count_action_concat(seq![Action::InstallSignals], tail, Action::FreeScriptState);
        lemma_count_action_concat(seq![Action::InstallSignals], tail, Action::FullCleanup);
        lemma_count_action_concat(seq![Action::InstallSignals], tail, Action::AllocScriptState);
    }
}

/// Law (interactive default): a validation run without a benchmark
/// option yields, if it yields anything, a configuration whose
/// benchmark is zero, and dispatch then selects the interactive loop.
pub proof fn lemma_benchmark_absent_dispatch(
    interactive: bool,
    world_size_arg: Option<Seq<char>>,
    port_arg: Option<Seq<char>>,
    positionals: Seq<Seq<char>>,
    notice: Seq<char>,
)
    ensures
        validate_model(
            false,
            false,
            interactive,
            world_size_arg,
            port_arg,
            None,
            positionals,
            notice,
        ) matches OutcomeModel::Ready(c) ==> c.benchmark == 0 && spec_dispatch(c.benchmark)
            == RunMode::Interactive,
{
}

/// Law (benchmark overrides): a benchmark option of `500`, with the
/// other rules met, yields a configuration whose benchmark is `500`,
/// and dispatch then selects the benchmark — whatever the interactive
/// flag says.
pub proof fn lemma_benchmark_dispatch(
    interactive: bool,
    world_size_arg: Option<Seq<char>>,
    port_arg: Option<Seq<char>>,
    positionals: Seq<Seq<char>>,
    notice: Seq<char>,
)
    requires
        world_size_arg matches Some(s) ==> world_size_ok(s),
        port_arg matches Some(s) ==> port_ok(s),
        positionals.len() >= 1,
    ensures
        validate_model(
            false,
            false,
            interactive,
            world_size_arg,
            port_arg,
            Some("500"@),
            positionals,
            notice,
        ) matches OutcomeModel::Ready(c) && c.benchmark == 500 && spec_dispatch(c.benchmark)
            == RunMode::Benchmark(500),
{
    reveal_strlit("500");
    let s = "500"@;
    assert(dec_digits_of(s) == s);
    let d2 = s.drop_last();
    let d1 = d2.drop_last();
    assert(d1.drop_last().len() == 0);
    assert(d1.last() == '5' && d2.last() == '0' && s.last() == '0');
    assert(dec_val(d1) == 5) by {
        assert(dec_val(d1) == dec_val(d1.drop_last()) * 10 + digit_val(d1.last()));
    };
    assert(dec_val(d2) == 50) by {
        assert(dec_val(d2) == dec_val(d2.drop_last()) * 10 + digit_val(d2.last()));
        assert(d2.drop_last() =~= d1);
    };
    assert(dec_val(s) == 500) by {
        assert(dec_val(s) == dec_val(s.drop_last()) * 10 + digit_val(s.last()));
        assert(s.drop_last() =~= d2);
    };
    assert(dec_str_val(s) == 500);
    assert(is_dec_str(s));
}

} // verus!

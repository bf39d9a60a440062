use redpile::config::build_config;
use redpile::config::Config;
use redpile::config::ConfigOutcome;
use redpile::startup::dispatch_mode;
use redpile::startup::RunMode;

fn ready(outcome: ConfigOutcome) -> Config {
    match outcome {
        ConfigOutcome::Ready(c) => c,
        other => panic!("expected a ready configuration, got {:?}", other),
    }
}

fn failure(outcome: ConfigOutcome) -> String {
    match outcome {
        ConfigOutcome::Failed(m) => m,
        other => panic!("expected a failure, got {:?}", other),
    }
}

#[test]
fn defaults_when_nothing_is_supplied() {
    let c = ready(build_config(
        false,
        false,
        false,
        None,
        None,
        None,
        vec!["world.lua".to_string()],
        String::new(),
    ));
    assert_eq!(c.world_size, 1024);
    assert!(!c.interactive);
    assert_eq!(c.port, 0);
    assert_eq!(c.benchmark, 0);
    assert_eq!(c.file, "world.lua");
}

#[test]
fn explicit_values_are_preserved() {
    let c = ready(build_config(
        false,
        false,
        true,
        Some("64".to_string()),
        Some("8080".to_string()),
        Some("250".to_string()),
        vec!["a.lua".to_string(), "extra".to_string()],
        String::new(),
    ));
    assert_eq!(c.world_size, 64);
    assert!(c.interactive);
    assert_eq!(c.port, 8080);
    assert_eq!(c.benchmark, 250);
    assert_eq!(c.file, "a.lua");
}

#[test]
fn help_short_circuits_even_invalid_options() {
    let outcome = build_config(
        true,
        false,
        false,
        Some("3".to_string()),
        Some("0".to_string()),
        None,
        vec![],
        "the usage text".to_string(),
    );
    match outcome {
        ConfigOutcome::Done(t) => assert_eq!(t, "the usage text"),
        other => panic!("expected Done, got {:?}", other),
    }
}

#[test]
fn version_short_circuits() {
    let outcome = build_config(
        false,
        true,
        false,
        None,
        None,
        None,
        vec![],
        "Redpile 0.5.0\n".to_string(),
    );
    assert!(matches!(outcome, ConfigOutcome::Done(_)));
}

#[test]
fn missing_file_is_rejected() {
    let m = failure(build_config(
        false,
        false,
        false,
        None,
        None,
        None,
        vec![],
        String::new(),
    ));
    assert_eq!(m, "You must provide a configuration file");
}

#[test]
fn port_zero_explicit_rejected_but_default_allowed() {
    let m = failure(build_config(
        false,
        false,
        false,
        None,
        Some("0".to_string()),
        None,
        vec!["w.lua".to_string()],
        String::new(),
    ));
    assert_eq!(m, "You must pass a number between 1 and 65535 as the port number");
    let c = ready(build_config(
        false,
        false,
        false,
        None,
        None,
        None,
        vec!["w.lua".to_string()],
        String::new(),
    ));
    assert_eq!(c.port, 0);
}

#[test]
fn benchmark_absent_dispatches_interactive() {
    let c = ready(build_config(
        false,
        false,
        true,
        None,
        None,
        None,
        vec!["w.lua".to_string()],
        String::new(),
    ));
    assert_eq!(c.benchmark, 0);
    assert_eq!(dispatch_mode(&c), RunMode::Interactive);
}

#[test]
fn benchmark_present_dispatches_benchmark_despite_interactive() {
    let c = ready(build_config(
        false,
        false,
        true,
        None,
        None,
        Some("500".to_string()),
        vec!["w.lua".to_string()],
        String::new(),
    ));
    assert_eq!(c.benchmark, 500);
    assert_eq!(dispatch_mode(&c), RunMode::Benchmark(500));
}

#[test]
fn first_violation_wins() {
    let m = failure(build_config(
        false,
        false,
        false,
        Some("3".to_string()),
        Some("0".to_string()),
        Some("0".to_string()),
        vec![],
        String::new(),
    ));
    assert_eq!(
        m,
        "You must pass a power of two between 1 and 4294967295 as the world size"
    );
    let m = failure(build_config(
        false,
        false,
        false,
        Some("64".to_string()),
        Some("0".to_string()),
        Some("0".to_string()),
        vec![],
        String::new(),
    ));
    assert_eq!(m, "You must pass a number between 1 and 65535 as the port number");
    let m = failure(build_config(
        false,
        false,
        false,
        Some("64".to_string()),
        Some("9000".to_string()),
        Some("0".to_string()),
        vec![],
        String::new(),
    ));
    assert_eq!(
        m,
        "You must pass a positive number of seconds to run each benchmark for"
    );
}

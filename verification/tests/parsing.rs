use redpile::config::parse_benchmark_size;
use redpile::config::parse_port_number;
use redpile::config::parse_world_size;
use redpile::config::is_power_of_two;
use redpile::config::ConfigOutcome;

const WORLD_SIZE_MSG: &str =
    "You must pass a power of two between 1 and 4294967295 as the world size";
const PORT_MSG: &str = "You must pass a number between 1 and 65535 as the port number";
const BENCHMARK_MSG: &str =
    "You must pass a positive number of seconds to run each benchmark for";

fn failed_message<T: std::fmt::Debug>(r: Result<T, ConfigOutcome>) -> String {
    match r {
        Err(ConfigOutcome::Failed(m)) => m,
        other => panic!("expected a failure, got {:?}", other),
    }
}

#[test]
fn world_size_accepts_powers_of_two() {
    assert_eq!(parse_world_size("1").unwrap(), 1);
    assert_eq!(parse_world_size("2").unwrap(), 2);
    assert_eq!(parse_world_size("1024").unwrap(), 1024);
    assert_eq!(parse_world_size("2147483648").unwrap(), 2147483648);
    assert_eq!(parse_world_size("+16").unwrap(), 16);
}

#[test]
fn world_size_rejects_zero() {
    assert_eq!(failed_message(parse_world_size("0")), WORLD_SIZE_MSG);
}

#[test]
fn world_size_rejects_other_positives() {
    assert_eq!(failed_message(parse_world_size("3")), WORLD_SIZE_MSG);
    assert_eq!(failed_message(parse_world_size("1023")), WORLD_SIZE_MSG);
    assert_eq!(failed_message(parse_world_size("4294967295")), WORLD_SIZE_MSG);
}

#[test]
fn world_size_rejects_non_numerals() {
    assert_eq!(failed_message(parse_world_size("")), WORLD_SIZE_MSG);
    assert_eq!(failed_message(parse_world_size("abc")), WORLD_SIZE_MSG);
    assert_eq!(failed_message(parse_world_size("-4")), WORLD_SIZE_MSG);
    assert_eq!(failed_message(parse_world_size("4294967296")), WORLD_SIZE_MSG);
    assert_eq!(failed_message(parse_world_size("+")), WORLD_SIZE_MSG);
    assert_eq!(failed_message(parse_world_size("1 ")), WORLD_SIZE_MSG);
}

#[test]
fn port_rejects_explicit_zero() {
    assert_eq!(failed_message(parse_port_number("0")), PORT_MSG);
}

#[test]
fn port_accepts_range() {
    assert_eq!(parse_port_number("1").unwrap(), 1);
    assert_eq!(parse_port_number("8080").unwrap(), 8080);
    assert_eq!(parse_port_number("65535").unwrap(), 65535);
}

#[test]
fn port_rejects_out_of_range() {
    assert_eq!(failed_message(parse_port_number("65536")), PORT_MSG);
    assert_eq!(failed_message(parse_port_number("-1")), PORT_MSG);
    assert_eq!(failed_message(parse_port_number("")), PORT_MSG);
}

#[test]
fn benchmark_accepts_positive() {
    assert_eq!(parse_benchmark_size("500").unwrap(), 500);
    assert_eq!(parse_benchmark_size("1").unwrap(), 1);
    assert_eq!(parse_benchmark_size("4294967295").unwrap(), 4294967295);
}

#[test]
fn benchmark_rejects_zero_and_junk() {
    assert_eq!(failed_message(parse_benchmark_size("0")), BENCHMARK_MSG);
    assert_eq!(failed_message(parse_benchmark_size("abc")), BENCHMARK_MSG);
    assert_eq!(failed_message(parse_benchmark_size("4294967296")), BENCHMARK_MSG);
}

#[test]
fn power_of_two_bit_test() {
    assert!(is_power_of_two(1));
    assert!(is_power_of_two(2));
    assert!(is_power_of_two(1024));
    assert!(is_power_of_two(2147483648));
    assert!(!is_power_of_two(3));
    assert!(!is_power_of_two(6));
    assert!(!is_power_of_two(4294967295));
}

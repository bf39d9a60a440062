//! Startup configuration: the typed settings a run starts from, and the
//! rules that turn raw option text into them.
//!
//! Each optional flag has an independent domain rule; the first violated
//! rule decides the outcome. Help or version requests short-circuit every
//! rule, and a missing configuration file is checked last.

use vstd::prelude::*;

use crate::digits::dec_digits_of;
use crate::digits::dec_str_val;
use crate::digits::dec_val;
use crate::digits::digit_val;
use crate::digits::is_dec_str;
use vstd::arithmetic::power2::is_pow2;

verus! {

/// World size used when no `-w` option is supplied.
pub const DEFAULT_WORLD_SIZE: u32 = 1024;

/// A validated, immutable startup configuration.
#[derive(Clone, Debug)]
pub struct Config {
    /// Number of nodes to allocate initially; always a power of two.
    pub world_size: u32,
    /// Whether the interactive loop should offer a local prompt.
    pub interactive: bool,
    /// Port for remote commands; `0` means no listener.
    pub port: u16,
    /// Benchmark duration in milliseconds; `0` means interactive dispatch.
    pub benchmark: u32,
    /// Path of the world-defining script.
    pub file: String,
}

/// The mathematical image of a [`Config`].
pub struct ConfigModel {
    pub world_size: u32,
    pub interactive: bool,
    pub port: u16,
    pub benchmark: u32,
    pub file: Seq<char>,
}

impl View for Config {
    type V = ConfigModel;

    open spec fn view(&self) -> ConfigModel {
        ConfigModel {
            world_size: self.world_size,
            interactive: self.interactive,
            port: self.port,
            benchmark: self.benchmark,
            file: self.file@,
        }
    }
}

/// What configuration work ended in: a runnable configuration, an
/// informational request already answered (the text to show on standard
/// output travels with it), or a rejection with its error message.
#[derive(Clone, Debug)]
pub enum ConfigOutcome {
    Ready(Config),
    Done(String),
    Failed(String),
}

/// The mathematical image of a [`ConfigOutcome`].
pub enum OutcomeModel {
    Ready(ConfigModel),
    Done(Seq<char>),
    Failed(Seq<char>),
}

impl View for ConfigOutcome {
    type V = OutcomeModel;

    open spec fn view(&self) -> OutcomeModel {
        match self {
            ConfigOutcome::Ready(c) => OutcomeModel::Ready(c@),
            ConfigOutcome::Done(t) => OutcomeModel::Done(t@),
            ConfigOutcome::Failed(m) => OutcomeModel::Failed(m@),
        }
    }
}

/// Message for a world size that is not a positive power of two.
pub open spec fn world_size_error_msg() -> Seq<char> {
    "You must pass a power of two between 1 and 4294967295 as the world size"@
}

/// Message for a port outside `1..=65535`.
pub open spec fn port_error_msg() -> Seq<char> {
    "You must pass a number between 1 and 65535 as the port number"@
}

/// Message for a benchmark duration that is not positive.
pub open spec fn benchmark_error_msg() -> Seq<char> {
    "You must pass a positive number of seconds to run each benchmark for"@
}

/// Message for a missing configuration file.
pub open spec fn missing_file_msg() -> Seq<char> {
    "You must provide a configuration file"@
}

/// `x` is a power of two, phrased as the bit test the validator runs.
pub open spec fn spec_is_power_of_two(x: u32) -> bool {
    x >= 1 && (x & ((x - 1) as u32)) == 0
}

/// An explicit world-size value is accepted: a numeral whose value is a
/// power of two in `1..=u32::MAX`.
pub open spec fn world_size_ok(s: Seq<char>) -> bool {
    is_dec_str(s) && 1 <= dec_str_val(s) <= u32::MAX && spec_is_power_of_two(
        dec_str_val(s) as u32,
    )
}

/// An explicit port value is accepted: a numeral in `1..=65535`.
pub open spec fn port_ok(s: Seq<char>) -> bool {
    is_dec_str(s) && 1 <= dec_str_val(s) <= u16::MAX
}

/// An explicit benchmark duration is accepted: a positive numeral that
/// fits in 32 bits.
pub open spec fn benchmark_ok(s: Seq<char>) -> bool {
    is_dec_str(s) && 1 <= dec_str_val(s) <= u32::MAX
}

/// The outcome of validation, as a function of the recognized option
/// text. `notice` is the text a help or version request answers with.
pub open spec fn validate_model(
    help: bool,
    version: bool,
    interactive: bool,
    world_size_arg: Option<Seq<char>>,
    port_arg: Option<Seq<char>>,
    benchmark_arg: Option<Seq<char>>,
    positionals: Seq<Seq<char>>,
    notice: Seq<char>,
) -> OutcomeModel {
    if help || version {
        OutcomeModel::Done(notice)
    } else if world_size_arg matches Some(s) && !world_size_ok(s) {
        OutcomeModel::Failed(world_size_error_msg())
    } else if port_arg matches Some(s) && !port_ok(s) {
        OutcomeModel::Failed(port_error_msg())
    } else if benchmark_arg matches Some(s) && !benchmark_ok(s) {
        OutcomeModel::Failed(benchmark_error_msg())
    } else if positionals.len() == 0 {
        OutcomeModel::Failed(missing_file_msg())
    } else {
        OutcomeModel::Ready(
            ConfigModel {
                world_size: match world_size_arg {
                    Some(s) => dec_str_val(s) as u32,
                    None => DEFAULT_WORLD_SIZE,
                },
                interactive,
                port: match port_arg {
                    Some(s) => dec_str_val(s) as u16,
                    None => 0,
                },
                benchmark: match benchmark_arg {
                    Some(s) => dec_str_val(s) as u32,
                    None => 0,
                },
                file: positionals[0],
            },
        )
    }
}

/// The invariant every runnable configuration satisfies.
pub open spec fn config_wf(c: ConfigModel) -> bool {
    spec_is_power_of_two(c.world_size)
}

/// Law: the bit test the validator runs accepts exactly the powers of
/// two, in the arithmetic sense.
pub proof fn lemma_power_of_two_characterization(x: u32)
    ensures
        spec_is_power_of_two(x) <==> is_pow2(x as int),
    decreases x,
{
    reveal(is_pow2);
    if x == 0 {
    } else if x == 1 {
        assert((1u32 & ((1u32 - 1) as u32)) == 0) by (bit_vector);
    } else {
        let h: u32 = x >> 1;
        assert(h == x / 2) by (bit_vector)
            requires
                h == x >> 1,
        ;
        assert(h as int == x as int / 2);
        if spec_is_power_of_two(x) {
            assert(x % 2 == 0 && h >= 1 && (h & ((h - 1) as u32)) == 0) by (bit_vector)
                requires
                    x >= 2 && h == x >> 1 && (x & ((x - 1) as u32)) == 0,
            ;
            lemma_power_of_two_characterization(h);
            assert(is_pow2(h as int));
            assert(x as int % 2 == 0);
            assert(is_pow2(x as int));
        }
        if is_pow2(x as int) {
            assert(x as int % 2 == 0 && is_pow2(x as int / 2));
            assert(is_pow2(h as int));
            lemma_power_of_two_characterization(h);
            assert(h >= 1);
            assert((x & ((x - 1) as u32)) == 0) by (bit_vector)
                requires
                    x >= 2 && x % 2 == 0 && h == x >> 1 && h >= 1 && (h & ((h - 1) as u32))
                        == 0,
            ;
        }
    }
}

/// Law (world-size rule): an explicit world size passes validation
/// exactly when it is a numeral for a power of two in `1..=u32::MAX`;
/// in particular a value of zero always fails.
pub proof fn lemma_world_size_rule(s: Seq<char>)
    ensures
        world_size_ok(s) <==> (is_dec_str(s) && dec_str_val(s) <= u32::MAX && is_pow2(
            dec_str_val(s) as int,
        )),
{
    if is_dec_str(s) && dec_str_val(s) <= u32::MAX {
        let v = dec_str_val(s) as u32;
        lemma_power_of_two_characterization(v);
    }
}

/// Law (port provenance): when the world-size rule is met, an explicit
/// port of `0` is rejected with the port message, while an absent port
/// yields, if anything, a configuration whose port is `0`.
pub proof fn lemma_port_zero_provenance(
    interactive: bool,
    world_size_arg: Option<Seq<char>>,
    benchmark_arg: Option<Seq<char>>,
    positionals: Seq<Seq<char>>,
    notice: Seq<char>,
)
    requires
        world_size_arg matches Some(s) ==> world_size_ok(s),
    ensures
        validate_model(
            false,
            false,
            interactive,
            world_size_arg,
            Some("0"@),
            benchmark_arg,
            positionals,
            notice,
        ) == OutcomeModel::Failed(port_error_msg()),
        validate_model(
            false,
            false,
            interactive,
            world_size_arg,
            None,
            benchmark_arg,
            positionals,
            notice,
        ) matches OutcomeModel::Ready(c) ==> c.port == 0,
{
    reveal_strlit("0");
    let z = "0"@;
    assert(dec_digits_of(z) == z);
    assert(dec_val(z) == dec_val(z.drop_last()) * 10 + digit_val(z.last()));
    assert(z.drop_last().len() == 0);
    assert(dec_str_val(z) == 0);
    assert(!port_ok(z));
}

/// Law (missing file): without a help or version request, and with every
/// supplied option inside its domain, an empty positional list is
/// rejected with the configuration-file message.
pub proof fn lemma_missing_file(
    interactive: bool,
    world_size_arg: Option<Seq<char>>,
    port_arg: Option<Seq<char>>,
    benchmark_arg: Option<Seq<char>>,
    notice: Seq<char>,
)
    requires
        world_size_arg matches Some(s) ==> world_size_ok(s),
        port_arg matches Some(s) ==> port_ok(s),
        benchmark_arg matches Some(s) ==> benchmark_ok(s),
    ensures
        validate_model(
            false,
            false,
            interactive,
            world_size_arg,
            port_arg,
            benchmark_arg,
            Seq::empty(),
            notice,
        ) == OutcomeModel::Failed(missing_file_msg()),
{
}

/// Law (help short-circuit): a help request ends in `Done` with the
/// prepared text, whatever the other options hold — even invalid ones.
pub proof fn lemma_help_short_circuit(
    version: bool,
    interactive: bool,
    world_size_arg: Option<Seq<char>>,
    port_arg: Option<Seq<char>>,
    benchmark_arg: Option<Seq<char>>,
    positionals: Seq<Seq<char>>,
    notice: Seq<char>,
)
    ensures
        validate_model(
            true,
            version,
            interactive,
            world_size_arg,
            port_arg,
            benchmark_arg,
            positionals,
            notice,
        ) == OutcomeModel::Done(notice),
{
}

/// The bit test `x & (x - 1) == 0` that the validator runs.
pub fn is_power_of_two(x: u32) -> (r: bool)
    requires
        x >= 1,
    ensures
        r == spec_is_power_of_two(x),
{
    x & (x - 1) == 0
}

/// Accepts exactly the numerals naming a power of two in `1..=u32::MAX`,
/// preserving the value; anything else earns the world-size message.
pub fn parse_world_size(string: &str) -> (r: Result<u32, ConfigOutcome>)
    ensures
        r is Ok <==> world_size_ok(string@),
        r matches Ok(v) ==> v == dec_str_val(string@),
        r matches Err(o) ==> o@ == OutcomeModel::Failed(world_size_error_msg()),
{
    match crate::digits::parse_dec_bounded(string, 0xffff_ffff) {
        Some(v) => {
            if v > 0 {
                let value = v as u32;
                if is_power_of_two(value) {
                    return Ok(value);
                }
            }
            Err(
                ConfigOutcome::Failed(
                    "You must pass a power of two between 1 and 4294967295 as the world size".to_owned(),
                ),
            )
        },
        None => Err(
            ConfigOutcome::Failed(
                "You must pass a power of two between 1 and 4294967295 as the world size".to_owned(),
            ),
        ),
    }
}

/// Accepts exactly the numerals in `1..=65535`; `0`, like everything
/// else outside the range, earns the port message.
pub fn parse_port_number(string: &str) -> (r: Result<u16, ConfigOutcome>)
    ensures
        r is Ok <==> port_ok(string@),
        r matches Ok(v) ==> v == dec_str_val(string@),
        r matches Err(o) ==> o@ == OutcomeModel::Failed(port_error_msg()),
{
    match crate::digits::parse_dec_bounded(string, 0xffff) {
        Some(v) => {
            if v > 0 {
                return Ok(v as u16);
            }
            Err(
                ConfigOutcome::Failed(
                    "You must pass a number between 1 and 65535 as the port number".to_owned(),
                ),
            )
        },
        None => Err(
            ConfigOutcome::Failed(
                "You must pass a number between 1 and 65535 as the port number".to_owned(),
            ),
        ),
    }
}

/// Accepts exactly the positive numerals that fit in 32 bits.
pub fn parse_benchmark_size(string: &str) -> (r: Result<u32, ConfigOutcome>)
    ensures
        r is Ok <==> benchmark_ok(string@),
        r matches Ok(v) ==> v == dec_str_val(string@),
        r matches Err(o) ==> o@ == OutcomeModel::Failed(benchmark_error_msg()),
{
    match crate::digits::parse_dec_bounded(string, 0xffff_ffff) {
        Some(v) => {
            if v > 0 {
                return Ok(v as u32);
            }
            Err(
                ConfigOutcome::Failed(
                    "You must pass a positive number of seconds to run each benchmark for".to_owned(),
                ),
            )
        },
        None => Err(
            ConfigOutcome::Failed(
                "You must pass a positive number of seconds to run each benchmark for".to_owned(),
            ),
        ),
    }
}

/// Builds the outcome from the recognized option text, exactly as
/// [`validate_model`] describes.
pub fn build_config(
    help: bool,
    version: bool,
    interactive: bool,
    world_size_arg: Option<String>,
    port_arg: Option<String>,
    benchmark_arg: Option<String>,
    positionals: Vec<String>,
    notice: String,
) -> (r: ConfigOutcome)
    ensures
        r@ == validate_model(
            help,
            version,
            interactive,
            world_size_arg.deep_view(),
            port_arg.deep_view(),
            benchmark_arg.deep_view(),
            positionals.deep_view(),
            notice@,
        ),
{
    if help || version {
        return ConfigOutcome::Done(notice);
    }
    let world_size: u32 = match world_size_arg {
        Some(s) => match parse_world_size(s.as_str()) {
            Ok(v) => v,
            Err(o) => {
                return o;
            },
        },
        None => DEFAULT_WORLD_SIZE,
    };
    let port: u16 = match port_arg {
        Some(s) => match parse_port_number(s.as_str()) {
            Ok(v) => v,
            Err(o) => {
                return o;
            },
        },
        None => 0,
    };
    let benchmark: u32 = match benchmark_arg {
        Some(s) => match parse_benchmark_size(s.as_str()) {
            Ok(v) => v,
            Err(o) => {
                return o;
            },
        },
        None => 0,
    };
    if positionals.len() == 0 {
        return ConfigOutcome::Failed("You must provide a configuration file".to_owned());
    }
    let file = positionals[0].clone();
    ConfigOutcome::Ready(Config { world_size, interactive, port, benchmark, file })
}

} // verus!

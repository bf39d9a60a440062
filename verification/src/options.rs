//! Recognition of the command line, built on the `getopts` crate.
//!
//! `getopts` owns the flag grammar (clustering, `--name=value`, `--`);
//! this module declares the option set, hands the raw arguments over,
//! and feeds what came back into the validation rules of
//! [`crate::config`]. Recognition is deterministic: what `getopts`
//! answers is a function of the declared option table and the argument
//! list alone. That table is named by [`opts_model`], the answers by
//! the `recognized_*` and [`usage_render`] functions, and each
//! `getopts` call is trusted to relate its result to those names — so
//! [`parse_options`] can state its outcome exactly, for every argument
//! list.

use vstd::prelude::*;

use crate::config::build_config;
use crate::config::config_wf;
use crate::config::validate_model;
use crate::config::ConfigOutcome;
use crate::config::OutcomeModel;
use vstd::string::is_ascii;
use vstd::string::StringExecFns;

verus! {

/// One declared option: short name, long name, description, value hint
/// (empty for flags), and whether it takes a value.
pub type DeclaredOption = (Seq<char>, Seq<char>, Seq<char>, Seq<char>, bool);

#[verifier::external_type_specification]
#[verifier::external_body]
pub struct ExOptions(getopts::Options);

#[verifier::external_type_specification]
#[verifier::external_body]
pub struct ExMatches(getopts::Matches);

#[verifier::external_type_specification]
#[verifier::external_body]
pub struct ExFail(getopts::Fail);

/// The names (short and long) of the options declared so far.
pub uninterp spec fn declared_opts(o: getopts::Options) -> Set<Seq<char>>;

/// The options declared so far, in declaration order.
pub uninterp spec fn opts_model(o: getopts::Options) -> Seq<DeclaredOption>;

/// `o` is of the shape the declaring functions below build: every group
/// declared through `optopt` or `optflag` — a one-byte ASCII short
/// name, a longer long name, optional occurrence — with the parsing
/// style and name matching that `Options::new` sets. For such a value,
/// parsing and usage rendering are functions of [`opts_model`] alone.
pub uninterp spec fn well_formed_options(o: getopts::Options) -> bool;

/// The names the match result can be queried under: those of the
/// declared options.
pub uninterp spec fn known_opts(m: getopts::Matches) -> Set<Seq<char>>;

/// The names (short and long) of the options that matched.
pub uninterp spec fn present_opts(m: getopts::Matches) -> Set<Seq<char>>;

/// For each value-taking option that matched, the value given with its
/// first occurrence, under each of its names.
pub uninterp spec fn opt_values(m: getopts::Matches) -> Map<Seq<char>, Seq<char>>;

/// The positional arguments, in order.
pub uninterp spec fn free_operands(m: getopts::Matches) -> Seq<Seq<char>>;

/// The text a recognition fault renders to.
pub uninterp spec fn fail_text(f: getopts::Fail) -> Seq<char>;

/// Whether `getopts` recognition of `args` succeeds under the declared
/// option table `opts`.
pub uninterp spec fn recognizes(opts: Seq<DeclaredOption>, args: Seq<Seq<char>>) -> bool;

/// The names of the options recognition finds matched.
pub uninterp spec fn recognized_present(opts: Seq<DeclaredOption>, args: Seq<Seq<char>>) -> Set<
    Seq<char>,
>;

/// The value the first occurrence of each matched value-taking option
/// carries, under each of its names.
pub uninterp spec fn recognized_values(opts: Seq<DeclaredOption>, args: Seq<Seq<char>>) -> Map<
    Seq<char>,
    Seq<char>,
>;

/// The positional arguments recognition leaves over, in order.
pub uninterp spec fn recognized_free(opts: Seq<DeclaredOption>, args: Seq<Seq<char>>) -> Seq<
    Seq<char>,
>;

/// The text describing why recognition failed.
pub uninterp spec fn recognition_fault(opts: Seq<DeclaredOption>, args: Seq<Seq<char>>) -> Seq<
    char,
>;

/// The usage message derived from the brief line and the option table.
pub uninterp spec fn usage_render(opts: Seq<DeclaredOption>, brief: Seq<char>) -> Seq<char>;

/// Relies on getopts::Options::new: a fresh set with nothing declared,
/// in the default parsing style.
#[verifier::external_body]
fn new_options() -> (r: getopts::Options)
    ensures
        declared_opts(r) == Set::<Seq<char>>::empty(),
        opts_model(r) == Seq::<DeclaredOption>::empty(),
        well_formed_options(r),
{
    getopts::Options::new()
}

/// Relies on getopts::Options::optopt: declares an optional option that
/// takes a value, under its short and its long name. It panics unless
/// the short name is one byte and the long name more than one; the
/// precondition pins both down.
#[verifier::external_body]
fn declare_valued(
    opts: &mut getopts::Options,
    short: &str,
    long: &str,
    desc: &str,
    hint: &str,
)
    requires
        is_ascii(short),
        short@.len() == 1,
        is_ascii(long),
        long@.len() >= 2,
    ensures
        declared_opts(*final(opts)) == declared_opts(*old(opts)).insert(short@).insert(long@),
        opts_model(*final(opts)) == opts_model(*old(opts)).push(
            (short@, long@, desc@, hint@, true),
        ),
        well_formed_options(*old(opts)) ==> well_formed_options(*final(opts)),
{
    opts.optopt(short, long, desc, hint);
}

/// Relies on getopts::Options::optflag: declares an optional option that
/// takes no value, under its short and its long name; the same name
/// shapes as for [`declare_valued`] are required to keep it from
/// panicking.
#[verifier::external_body]
fn declare_flag(opts: &mut getopts::Options, short: &str, long: &str, desc: &str)
    requires
        is_ascii(short),
        short@.len() == 1,
        is_ascii(long),
        long@.len() >= 2,
    ensures
        declared_opts(*final(opts)) == declared_opts(*old(opts)).insert(short@).insert(long@),
        opts_model(*final(opts)) == opts_model(*old(opts)).push(
            (short@, long@, desc@, ""@, false),
        ),
        well_formed_options(*old(opts)) ==> well_formed_options(*final(opts)),
{
    opts.optflag(short, long, desc);
}

/// Relies on getopts::Options::parse: matches the declared options
/// against the arguments; unknown options, missing values and kindred
/// faults come back as a `getopts::Fail` instead. For a well-formed
/// option set the whole answer — success, the matched names and
/// values, the free operands, the fault text — is a function of the
/// declared table and the arguments, which the recognition names
/// record. The names declared at parse time are the ones the result
/// answers to.
#[verifier::external_body]
fn parse_args(opts: &getopts::Options, args: &Vec<String>) -> (r: Result<
    getopts::Matches,
    getopts::Fail,
>)
    requires
        well_formed_options(*opts),
    ensures
        r is Ok <==> recognizes(opts_model(*opts), args.deep_view()),
        r matches Ok(m) ==> known_opts(m) == declared_opts(*opts),
        r matches Ok(m) ==> present_opts(m) == recognized_present(
            opts_model(*opts),
            args.deep_view(),
        ),
        r matches Ok(m) ==> opt_values(m) == recognized_values(
            opts_model(*opts),
            args.deep_view(),
        ),
        r matches Ok(m) ==> free_operands(m) == recognized_free(
            opts_model(*opts),
            args.deep_view(),
        ),
        r matches Err(f) ==> fail_text(f) == recognition_fault(
            opts_model(*opts),
            args.deep_view(),
        ),
{
    opts.parse(args)
}

/// Relies on getopts::Matches::opt_present: whether an option with this
/// name matched. It panics on names never declared; the precondition
/// admits only those the match result knows.
#[verifier::external_body]
fn opt_present(m: &getopts::Matches, name: &str) -> (r: bool)
    requires
        known_opts(*m).contains(name@),
    ensures
        r == present_opts(*m).contains(name@),
{
    m.opt_present(name)
}

/// Relies on getopts::Matches::opt_str: the value given with the first
/// occurrence of the named option, or nothing if no occurrence brought a
/// value. It panics on names never declared; the precondition admits
/// only those the match result knows.
#[verifier::external_body]
fn opt_value(m: &getopts::Matches, name: &str) -> (r: Option<String>)
    requires
        known_opts(*m).contains(name@),
    ensures
        r is Some <==> opt_values(*m).contains_key(name@),
        r matches Some(v) ==> v@ == opt_values(*m)[name@],
{
    m.opt_str(name)
}

/// Relies on the getopts::Matches::free field: the positional
/// arguments, in order.
#[verifier::external_body]
fn free_args(m: &getopts::Matches) -> (r: Vec<String>)
    ensures
        r.deep_view() == free_operands(*m),
{
    m.free.clone()
}

/// Relies on getopts::Options::usage: the usage message derived from
/// the brief line and the declared options — for a well-formed option
/// set, a function of the declared table and the brief alone. Its
/// panic is reachable only through option names that the declaring
/// calls already reject.
#[verifier::external_body]
fn usage_of(opts: &getopts::Options, brief: &str) -> (r: String)
    requires
        well_formed_options(*opts),
    ensures
        r@ == usage_render(opts_model(*opts), brief@),
{
    opts.usage(brief)
}

/// Relies on the Display rendering of getopts::Fail: a sentence naming
/// the argument at fault, a function of the fault value alone.
#[verifier::external_body]
fn fail_message(f: &getopts::Fail) -> (r: String)
    ensures
        r@ == fail_text(*f),
{
    f.to_string()
}

/// The option table of this program, exactly as [`parse_options`]
/// declares it.
pub open spec fn redpile_options() -> Seq<DeclaredOption> {
    seq![
        ("w"@, "world-size"@, "The number of nodes to allocate initially"@, "SIZE"@, true),
        (
            "i"@,
            "interactive"@,
            "Run in interactive mode with a prompt for reading commands"@,
            ""@,
            false,
        ),
        ("p"@, "port"@, "Listen on the specified port for commands"@, "PORT"@, true),
        ("b"@, "benchmark"@, "Run each benchmark for the time specified"@, "MILLISECONDS"@, true),
        ("v"@, "version"@, "Print the current version"@, ""@, false),
        ("h"@, "help"@, "Print this message"@, ""@, false),
    ]
}

/// The arguments recognition runs on: everything after the program
/// name.
pub open spec fn arg_tail(args: Seq<Seq<char>>) -> Seq<Seq<char>> {
    args.subrange(1, args.len() as int)
}

/// The text a help request answers with: the banner, then the usage
/// rendering over this program's option table.
pub open spec fn help_notice(program: Seq<char>) -> Seq<char> {
    "Redpile - A Voxel Logic Simulator\n"@ + usage_render(
        redpile_options(),
        "Usage: "@ + program + " [options] <config>"@,
    )
}

/// The text a version request answers with.
pub open spec fn version_notice() -> Seq<char> {
    "Redpile 0.5.0\n"@
}

/// The outcome of [`parse_options`], as a function of the argument
/// list. A recognition fault — unknown option, value-taking option
/// without a value — is decisive, before any help or version
/// short-circuit; otherwise the domain rules of
/// [`crate::config::validate_model`] run on what was recognized, with
/// the help text winning over the version text.
pub open spec fn parse_outcome_model(args: Seq<Seq<char>>) -> OutcomeModel {
    let tail = arg_tail(args);
    if !recognizes(redpile_options(), tail) {
        OutcomeModel::Failed(recognition_fault(redpile_options(), tail))
    } else {
        let present = recognized_present(redpile_options(), tail);
        let values = recognized_values(redpile_options(), tail);
        let help = present.contains("h"@);
        let version = present.contains("v"@);
        validate_model(
            help,
            version,
            present.contains("i"@),
            if values.contains_key("w"@) {
                Some(values["w"@])
            } else {
                None
            },
            if values.contains_key("p"@) {
                Some(values["p"@])
            } else {
                None
            },
            if values.contains_key("b"@) {
                Some(values["b"@])
            } else {
                None
            },
            recognized_free(redpile_options(), tail),
            if help {
                help_notice(args[0])
            } else if version {
                version_notice()
            } else {
                Seq::empty()
            },
        )
    }
}

/// Turns the process arguments (program name first) into a
/// configuration outcome, exactly as [`parse_outcome_model`] describes:
/// recognition through `getopts`, then the domain rules on whatever was
/// recognized. Every runnable configuration that comes out satisfies
/// the configuration invariant.
pub fn parse_options(args: &Vec<String>) -> (r: ConfigOutcome)
    requires
        args@.len() >= 1,
    ensures
        r@ == parse_outcome_model(args.deep_view()),
        r@ matches OutcomeModel::Ready(c) ==> config_wf(c),
{
    proof {
        reveal_strlit("w");
        reveal_strlit("world-size");
        reveal_strlit("i");
        reveal_strlit("interactive");
        reveal_strlit("p");
        reveal_strlit("port");
        reveal_strlit("b");
        reveal_strlit("benchmark");
        reveal_strlit("v");
        reveal_strlit("version");
        reveal_strlit("h");
        reveal_strlit("help");
    }
    let mut opts = new_options();
    declare_valued(&mut opts, "w", "world-size", "The number of nodes to allocate initially", "SIZE");
    declare_flag(&mut opts, "i", "interactive", "Run in interactive mode with a prompt for reading commands");
    declare_valued(&mut opts, "p", "port", "Listen on the specified port for commands", "PORT");
    declare_valued(&mut opts, "b", "benchmark", "Run each benchmark for the time specified", "MILLISECONDS");
    declare_flag(&mut opts, "v", "version", "Print the current version");
    declare_flag(&mut opts, "h", "help", "Print this message");
    proof {
        assert(opts_model(opts) =~= redpile_options());
    }
    let n = args.len();
    let mut tail: Vec<String> = Vec::new();
    let mut i: usize = 1;
    while i < n
        invariant
            1 <= i <= n,
            n == args@.len(),
            tail@.len() == i - 1,
            forall|k: int| 0 <= k < i - 1 ==> tail@[k] == args@[k + 1],
        decreases n - i,
    {
        tail.push(args[i].clone());
        i += 1;
    }
    proof {
        assert(tail.deep_view() =~= arg_tail(args.deep_view()));
    }
    let m = match parse_args(&opts, &tail) {
        Ok(m) => m,
        Err(f) => {
            return ConfigOutcome::Failed(fail_message(&f));
        },
    };
    let help = opt_present(&m, "h");
    let version = opt_present(&m, "v");
    let interactive = opt_present(&m, "i");
    let world_size_arg = opt_value(&m, "w");
    let port_arg = opt_value(&m, "p");
    let benchmark_arg = opt_value(&m, "b");
    let positionals = free_args(&m);
    let notice = if help {
        let mut brief = "Usage: ".to_owned();
        brief.append(args[0].as_str());
        brief.append(" [options] <config>");
        let usage = usage_of(&opts, brief.as_str());
        let mut text = "Redpile - A Voxel Logic Simulator\n".to_owned();
        text.append(usage.as_str());
        proof {
            assert(text@ == help_notice(args.deep_view()[0]));
        }
        text
    } else if version {
        "Redpile 0.5.0\n".to_owned()
    } else {
        String::new()
    };
    let r = build_config(
        help,
        version,
        interactive,
        world_size_arg,
        port_arg,
        benchmark_arg,
        positionals,
        notice,
    );
    proof {
        assert(crate::config::spec_is_power_of_two(crate::config::DEFAULT_WORLD_SIZE)) by {
            assert((1024u32 & ((1024u32 - 1) as u32)) == 0) by (bit_vector);
        };
    }
    r
}


/// Law (recognition comes first): a recognition fault — an unknown
/// option, or a value-taking option given without a value — is
/// decisive: the outcome is that fault's text as a failure, even when
/// help or version was also asked for, and no configuration is
/// produced.
pub proof fn lemma_fault_precedes_help(args: Seq<Seq<char>>)
    requires
        !recognizes(redpile_options(), arg_tail(args)),
    ensures
        parse_outcome_model(args) == OutcomeModel::Failed(
            recognition_fault(redpile_options(), arg_tail(args)),
        ),
{
}

/// Law (help wins over version): under successful recognition, a help
/// request answers with the usage text whatever else was given, and a
/// version request without help answers with the version line, with no
/// field validation performed in either case.
pub proof fn lemma_help_over_version(args: Seq<Seq<char>>)
    requires
        recognizes(redpile_options(), arg_tail(args)),
    ensures
        recognized_present(redpile_options(), arg_tail(args)).contains("h"@)
            ==> parse_outcome_model(args) == OutcomeModel::Done(help_notice(args[0])),
        !recognized_present(redpile_options(), arg_tail(args)).contains("h"@)
            && recognized_present(redpile_options(), arg_tail(args)).contains("v"@)
            ==> parse_outcome_model(args) == OutcomeModel::Done(version_notice()),
{
}

} // verus!

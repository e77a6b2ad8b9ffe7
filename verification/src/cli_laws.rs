//! What every call that takes the command line apart gives.

use std::path::PathBuf;
use vstd::prelude::*;

use crate::arguments;
use crate::arguments::{ArgKind, UsageError};
use crate::cli;
use crate::cli::{Cli, IoReadModeArg, KeepIndexMode, RawArgs};

verus! {

/// Each mode has its name, no other name has a mode, and just these names are
/// offered.
pub proof fn law_modes_have_names(
    name: &str,
    mode: Option<IoReadModeArg>,
    keep: Option<KeepIndexMode>,
)
    requires
        call_ensures(IoReadModeArg::from_name, (name,), mode),
        call_ensures(KeepIndexMode::from_name, (name,), keep),
    ensures
        mode == Some(IoReadModeArg::Auto) <==> name@ == "auto"@,
        mode == Some(IoReadModeArg::Sequential) <==> name@ == "sequential"@,
        mode == Some(IoReadModeArg::Pread) <==> name@ == "pread"@,
        mode == Some(IoReadModeArg::LockedReadAndSeek) <==> name@ == "locked-read-and-seek"@,
        keep == Some(KeepIndexMode::Auto) <==> name@ == "auto"@,
        keep == Some(KeepIndexMode::On) <==> name@ == "on"@,
        keep == Some(KeepIndexMode::Off) <==> name@ == "off"@,
        mode is Some <==> arguments::offers(cli::io_read_modes(), name@),
        keep is Some <==> arguments::offers(cli::keep_index_modes(), name@),
{
    lemma_names_differ();
    let (modes, keeps) = (cli::io_read_modes(), cli::keep_index_modes());
    assert(modes[0].0 == "auto"@ && modes[1].0 == "sequential"@ && modes[2].0 == "pread"@);
    assert(modes[3].0 == "locked-read-and-seek"@);
    assert(keeps[0].0 == "auto"@ && keeps[1].0 == "on"@ && keeps[2].0 == "off"@);
}

/// The names of the modes are different texts.
proof fn lemma_names_differ()
    ensures
        "auto"@ != "sequential"@,
        "auto"@ != "pread"@,
        "auto"@ != "locked-read-and-seek"@,
        "sequential"@ != "pread"@,
        "sequential"@ != "locked-read-and-seek"@,
        "pread"@ != "locked-read-and-seek"@,
        "auto"@ != "on"@,
        "auto"@ != "off"@,
        "on"@ != "off"@,
{
    reveal_strlit("auto");
    reveal_strlit("sequential");
    reveal_strlit("pread");
    reveal_strlit("locked-read-and-seek");
    reveal_strlit("on");
    reveal_strlit("off");
    assert("auto"@.len() == 4);
    assert("sequential"@.len() == 10);
    assert("pread"@.len() == 5);
    assert("locked-read-and-seek"@.len() == 20);
    assert("on"@.len() == 2);
    assert("off"@.len() == 3);
}

/// Arguments make a command line exactly if there are an input, the two numbers and
/// the names of two modes; every part of it is the argument of that name.
pub proof fn law_arguments_make_the_command_line(
    raw: RawArgs,
    mode_name: &str,
    keep_name: &str,
    mode: Option<IoReadModeArg>,
    keep: Option<KeepIndexMode>,
    r: Option<Cli>,
)
    requires
        call_ensures(Cli::from_raw, (raw,), r),
        raw.io_read_mode is Some ==> raw.io_read_mode->0@ == mode_name@,
        raw.keep_index is Some ==> raw.keep_index->0@ == keep_name@,
        call_ensures(IoReadModeArg::from_name, (mode_name,), mode),
        call_ensures(KeepIndexMode::from_name, (keep_name,), keep),
    ensures
        r is Some <==> {
            &&& raw.input is Some
            &&& raw.parallelism is Some
            &&& raw.chunk_size is Some
            &&& raw.io_read_mode is Some && mode is Some
            &&& raw.keep_index is Some && keep is Some
        },
        r is Some ==> {
            let cli = r->0;
            &&& cli.input@ == raw.input->0@
            &&& cli.output == raw.output
            &&& cli.stdout == raw.stdout
            &&& cli.force == raw.force
            &&& cli.decompress == raw.decompress
            &&& cli.keep == raw.keep
            &&& cli.parallelism == raw.parallelism->0
            &&& cli.chunk_size == raw.chunk_size->0
            &&& cli.export_index == raw.export_index
            &&& cli.import_index == raw.import_index
            &&& cli.io_read_mode == mode->0
            &&& cli.keep_index == keep->0
            &&& cli.count == raw.count
            &&& cli.count_lines == raw.count_lines
            &&& cli.benchmark_only == raw.benchmark_only
            &&& cli.quiet == raw.quiet
            &&& cli.verbose == raw.verbose
        },
{
}

/// Every option is set exactly if it was found on the command line, and has the
/// value that was found. What is not accepted is reported as found too.
pub proof fn law_options_are_those_found(argv: Vec<PathBuf>, r: Result<Cli, UsageError>)
    requires
        call_ensures(Cli::try_parse_from, (argv,), r),
    ensures
        ({
            let outcome = arguments::clap_outcome(cli::command_line(), argv@);
            let found = outcome->Ok_0;
            &&& r is Ok <==> outcome is Ok
            &&& r is Err ==> (r->Err_0.message@, r->Err_0.exit_code) == outcome->Err_0
            &&& r is Ok ==> {
                let cli = r->Ok_0;
                &&& found.texts.contains_key("input"@) && cli.input@ == found.texts["input"@]
                &&& cli.output is Some <==> found.paths.contains_key("output"@)
                &&& cli.output is Some ==> cli.output->0 == found.paths["output"@]
                &&& cli.export_index is Some <==> found.paths.contains_key("export_index"@)
                &&& cli.export_index is Some ==> cli.export_index->0
                    == found.paths["export_index"@]
                &&& cli.import_index is Some <==> found.paths.contains_key("import_index"@)
                &&& cli.import_index is Some ==> cli.import_index->0
                    == found.paths["import_index"@]
                &&& cli.stdout <==> found.switches.contains("stdout"@)
                &&& cli.force <==> found.switches.contains("force"@)
                &&& cli.decompress <==> found.switches.contains("decompress"@)
                &&& cli.keep <==> found.switches.contains("keep"@)
                &&& cli.count <==> found.switches.contains("count"@)
                &&& cli.count_lines <==> found.switches.contains("count_lines"@)
                &&& cli.benchmark_only <==> found.switches.contains("benchmark_only"@)
                &&& cli.quiet <==> found.switches.contains("quiet"@)
                &&& cli.verbose <==> found.switches.contains("verbose"@)
                &&& cli.parallelism == found.u32s["parallelism"@]
                &&& cli.chunk_size == found.u64s["chunk_size"@]
                &&& cli.io_read_mode is Auto <==> found.texts["io_read_mode"@] == "auto"@
                &&& cli.io_read_mode is Sequential <==> found.texts["io_read_mode"@]
                    == "sequential"@
                &&& cli.io_read_mode is Pread <==> found.texts["io_read_mode"@] == "pread"@
                &&& cli.io_read_mode is LockedReadAndSeek <==> found.texts["io_read_mode"@]
                    == "locked-read-and-seek"@
                &&& cli.keep_index is Auto <==> found.texts["keep_index"@] == "auto"@
                &&& cli.keep_index is On <==> found.texts["keep_index"@] == "on"@
                &&& cli.keep_index is Off <==> found.texts["keep_index"@] == "off"@
            }
        }),
{
    lemma_names_differ();
    if r is Ok {
        let found = arguments::clap_outcome(cli::command_line(), argv@)->Ok_0;
        let raw = choose|raw: RawArgs| #[trigger]
            raw.came_from(found) && raw.denotes(r->Ok_0);
        assert(raw.came_from(found) && raw.denotes(r->Ok_0));
    }
}

/// Options that exclude each other are never both set, and those that were not
/// given have their defaults.
pub proof fn law_accepted_options_go_together(argv: Vec<PathBuf>, r: Result<Cli, UsageError>)
    requires
        call_ensures(Cli::try_parse_from, (argv,), r),
        r is Ok,
    ensures
        ({
            let cli = r->Ok_0;
            let given = arguments::clap_outcome(cli::command_line(), argv@)->Ok_0.given;
            &&& !(cli.quiet && cli.verbose)
            &&& !(cli.stdout && cli.output is Some)
            &&& cli.count ==> !cli.count_lines && !cli.benchmark_only && !cli.stdout
                && cli.output is None
            &&& cli.count_lines ==> !cli.benchmark_only && !cli.stdout && cli.output is None
            &&& cli.benchmark_only ==> !cli.stdout && cli.output is None
            &&& given.contains("parallelism"@) || cli.parallelism == 0
            &&& given.contains("chunk_size"@) || cli.chunk_size == 0x40_0000
            &&& given.contains("io_read_mode"@) || cli.io_read_mode is Auto
            &&& given.contains("keep_index"@) || cli.keep_index is Auto
        }),
{
}

/// Whether the command line has an argument of the given identifier, with the given
/// short and long name, and whether it takes a value.
pub open spec fn declares(
    id: Seq<char>,
    short: Option<char>,
    long: Seq<char>,
    takes_value: bool,
) -> bool {
    exists|i: int|
        #![trigger cli::command_line().args[i]]
        0 <= i < cli::command_line().args.len() && cli::command_line().args[i].0.id == id
            && cli::command_line().args[i].0.short == short
            && cli::command_line().args[i].0.long == Some(long)
            && takes_value == !(cli::command_line().args[i].1 is Switch)
}

/// The options have the names under which they are documented.
pub proof fn law_options_have_their_names()
    ensures
        cli::command_line().args.len() == 17,
        cli::command_line().args[0].0.id == "input"@,
        cli::command_line().args[0].0.short is None && cli::command_line().args[0].0.long is None,
        declares("output"@, Some('o'), "output"@, true),
        declares("stdout"@, Some('c'), "stdout"@, false),
        declares("force"@, Some('f'), "force"@, false),
        declares("decompress"@, Some('d'), "decompress"@, false),
        declares("keep"@, Some('k'), "keep"@, false),
        declares("parallelism"@, Some('P'), "parallelism"@, true),
        declares("chunk_size"@, None, "chunk-size"@, true),
        declares("export_index"@, None, "export-index"@, true),
        declares("import_index"@, None, "import-index"@, true),
        declares("io_read_mode"@, None, "io-read-mode"@, true),
        declares("keep_index"@, None, "keep-index"@, true),
        declares("count"@, None, "count"@, false),
        declares("count_lines"@, Some('l'), "count-lines"@, false),
        declares("benchmark_only"@, None, "benchmark-only"@, false),
        declares("quiet"@, Some('q'), "quiet"@, false),
        declares("verbose"@, Some('v'), "verbose"@, false),
        cli::command_line().args[0].1 is Text && cli::command_line().args[0].0.required,
        cli::command_line().args[6].1 is U32 && cli::command_line().args[7].1 is U64,
        cli::command_line().args[10].1 == ArgKind::Choice(cli::io_read_modes()),
        cli::command_line().args[11].1 == ArgKind::Choice(cli::keep_index_modes()),
        forall|i: int|
            #![trigger cli::command_line().args[i]]
            1 <= i < 17 ==> !cli::command_line().args[i].0.required,
{
    let args = cli::command_line().args;
    assert(args[1].0.id == "output"@);
    assert(args[2].0.id == "stdout"@);
    assert(args[3].0.id == "force"@);
    assert(args[4].0.id == "decompress"@);
    assert(args[5].0.id == "keep"@);
    assert(args[6].0.id == "parallelism"@);
    assert(args[7].0.id == "chunk_size"@);
    assert(args[8].0.id == "export_index"@);
    assert(args[9].0.id == "import_index"@);
    assert(args[10].0.id == "io_read_mode"@);
    assert(args[11].0.id == "keep_index"@);
    assert(args[12].0.id == "count"@);
    assert(args[13].0.id == "count_lines"@);
    assert(args[14].0.id == "benchmark_only"@);
    assert(args[15].0.id == "quiet"@);
    assert(args[16].0.id == "verbose"@);
}

/// Nothing is excluded but what cannot go together: the choice of modes and
/// numbers, overwriting, indexes and the options without effect go with all.
pub proof fn law_free_options_exclude_nothing(i: int, j: int)
    requires
        0 <= i < 17,
        0 <= j < cli::command_line().args[i].0.conflicts.len(),
    ensures
        i == 1 || i == 12 || i == 13 || i == 14 || i == 15 || i == 16,
        ({
            let id = cli::command_line().args[i].0.id;
            let excluded = cli::command_line().args[i].0.conflicts[j];
            &&& id == "output"@ ==> excluded == "stdout"@
            &&& id == "quiet"@ ==> excluded == "verbose"@
            &&& id == "verbose"@ ==> excluded == "quiet"@
            &&& excluded == "stdout"@ || excluded == "output"@ || excluded == "count"@ || excluded
                == "count_lines"@ || excluded == "benchmark_only"@ || excluded == "quiet"@
                || excluded == "verbose"@
            &&& excluded == "quiet"@ ==> i == 16
            &&& excluded == "verbose"@ ==> i == 15
        }),
{
    reveal_strlit("output");
    reveal_strlit("stdout");
    reveal_strlit("count");
    reveal_strlit("count_lines");
    reveal_strlit("benchmark_only");
    reveal_strlit("quiet");
    reveal_strlit("verbose");
    assert("output"@[0] == 'o');
    assert("stdout"@[0] == 's');
    assert("count"@[0] == 'c' && "count"@.len() == 5);
    assert("count_lines"@[0] == 'c');
    assert("benchmark_only"@[0] == 'b');
    assert("quiet"@[0] == 'q');
    assert("verbose"@[0] == 'v');
}

} // verus!

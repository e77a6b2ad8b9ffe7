//! The command line.

use std::path::PathBuf;
use vstd::prelude::*;

use crate::arguments;
use crate::arguments::{
    declare, new_command, path_in, switch_in, take_apart, text_in, u32_in, u64_in, with_choice,
    with_path, with_switch, with_text, with_u32, with_u64, ArgDecl, ArgKind, ArgSpec, CommandDecl,
    Matched, UsageError,
};
use crate::decimal;
use crate::text;
use crate::text::same_text;

verus! {

/// How the compressed input is read.
#[derive(Copy, Clone, Debug, PartialEq, Eq, Structural)]
pub enum IoReadModeArg {
    /// Keep the native default behavior for the current input type.
    Auto,
    /// Force sequential buffered reads.
    Sequential,
    /// Force positioned reads on seekable files.
    Pread,
    /// Force shared read/seek operations without positioned reads.
    LockedReadAndSeek,
}

/// Whether the native reader keeps its in-memory index.
#[derive(Copy, Clone, Debug, PartialEq, Eq, Structural)]
pub enum KeepIndexMode {
    /// Keep the native default behavior.
    Auto,
    /// Keep the in-memory index after reads complete.
    On,
    /// Drop the in-memory index when it is no longer needed.
    Off,
}

/// The command line, taken apart.
#[derive(Debug)]
pub struct Cli {
    /// Input gzip file, URL (http/https), or '-' for standard input.
    pub input: String,
    /// Output file; by default it is inferred from a local input file.
    pub output: Option<PathBuf>,
    /// Write decompressed data to standard output.
    pub stdout: bool,
    /// Overwrite an existing output file.
    pub force: bool,
    /// Accepted for gzip compatibility.
    pub decompress: bool,
    /// Accepted for gzip compatibility; the input file is never deleted.
    pub keep: bool,
    /// Number of threads; zero means as many as the machine runs at once.
    pub parallelism: u32,
    /// Chunk size in bytes.
    pub chunk_size: u64,
    /// Export the index to this file after reading.
    pub export_index: Option<PathBuf>,
    /// Import the index from this file or URL before reading.
    pub import_index: Option<PathBuf>,
    /// The strategy for reading the compressed input.
    pub io_read_mode: IoReadModeArg,
    /// Whether the in-memory index is kept after use.
    pub keep_index: KeepIndexMode,
    /// Print the decompressed byte count.
    pub count: bool,
    /// Print the number of newline characters in the decompressed stream.
    pub count_lines: bool,
    /// Discard decompressed data and print the throughput.
    pub benchmark_only: bool,
    /// Suppress progress and informational messages.
    pub quiet: bool,
    /// Print additional progress and diagnostic information.
    pub verbose: bool,
}

/// The names of the read modes, and what is said of each.
pub open spec fn io_read_modes() -> Seq<(Seq<char>, Seq<char>)> {
    seq![
        ("auto"@, "Keep the native default behavior for the current input type"@),
        (
            "sequential"@,
            "Force sequential buffered reads. Useful for HDD-heavy or linear-read workloads"@,
        ),
        (
            "pread"@,
            "Force positioned reads on seekable files. Useful for SSD-friendly parallel access"@,
        ),
        (
            "locked-read-and-seek"@,
            "Force shared read/seek operations without pread. Useful as a conservative fallback"@,
        ),
    ]
}

/// The names of the modes of keeping the index, and what is said of each.
pub open spec fn keep_index_modes() -> Seq<(Seq<char>, Seq<char>)> {
    seq![
        ("auto"@, "Keep the native default behavior"@),
        ("on"@, "Keep the in-memory index after reads complete"@),
        ("off"@, "Drop the in-memory index when it is no longer needed"@),
    ]
}

/// The read mode of the given name.
pub open spec fn io_read_mode_of(name: Seq<char>) -> Option<IoReadModeArg> {
    if name == "auto"@ {
        Some(IoReadModeArg::Auto)
    } else if name == "sequential"@ {
        Some(IoReadModeArg::Sequential)
    } else if name == "pread"@ {
        Some(IoReadModeArg::Pread)
    } else if name == "locked-read-and-seek"@ {
        Some(IoReadModeArg::LockedReadAndSeek)
    } else {
        None
    }
}

/// The mode of keeping the index of the given name.
pub open spec fn keep_index_of(name: Seq<char>) -> Option<KeepIndexMode> {
    if name == "auto"@ {
        Some(KeepIndexMode::Auto)
    } else if name == "on"@ {
        Some(KeepIndexMode::On)
    } else if name == "off"@ {
        Some(KeepIndexMode::Off)
    } else {
        None
    }
}

impl IoReadModeArg {
    /// The read mode of the given name, if there is one.
    pub fn from_name(name: &str) -> (r: Option<IoReadModeArg>)
        ensures
            r == io_read_mode_of(name@),
    {
        if same_text(name, "auto") {
            Some(IoReadModeArg::Auto)
        } else if same_text(name, "sequential") {
            Some(IoReadModeArg::Sequential)
        } else if same_text(name, "pread") {
            Some(IoReadModeArg::Pread)
        } else if same_text(name, "locked-read-and-seek") {
            Some(IoReadModeArg::LockedReadAndSeek)
        } else {
            None
        }
    }
}

impl KeepIndexMode {
    /// The mode of the given name, if there is one.
    pub fn from_name(name: &str) -> (r: Option<KeepIndexMode>)
        ensures
            r == keep_index_of(name@),
    {
        if same_text(name, "auto") {
            Some(KeepIndexMode::Auto)
        } else if same_text(name, "on") {
            Some(KeepIndexMode::On)
        } else if same_text(name, "off") {
            Some(KeepIndexMode::Off)
        } else {
            None
        }
    }
}

/// An argument; one without names is positional and required.
pub open spec fn declared(
    id: &'static str,
    short: Option<char>,
    long: Option<&'static str>,
    value_name: Option<&'static str>,
    default: Option<&'static str>,
    help: &'static str,
    conflicts: Seq<Seq<char>>,
) -> ArgDecl {
    ArgDecl {
        id: id@,
        short,
        long: text::view_of(long),
        alias: None,
        value_name: text::view_of(value_name),
        default: text::view_of(default),
        help: help@,
        required: short is None && long is None,
        conflicts,
    }
}

/// The argument for the number of threads.
pub open spec fn parallelism_declared() -> ArgDecl {
    ArgDecl {
        id: "parallelism"@,
        short: Some('P'),
        long: Some("parallelism"@),
        alias: Some("parallelism"@),
        value_name: Some("PARALLELISM"@),
        default: Some("0"@),
        help:
            "Number of threads (parallelism). 0 means automatic (based on CPU cores)"@,
        required: false,
        conflicts: Seq::empty(),
    }
}

/// The command line of the program.
pub open spec fn command_line() -> CommandDecl {
    CommandDecl {
        name: "rapidgzip-rs-cli"@,
        version: "0.1.0"@,
        about: "Command-line decompressor for .gz and .bgz data based on rapidgzip-rs"@,
        long_about:
            "A high-performance parallel gzip decompressor CLI and benchmarking tool based on rapidgzip-rs."@,
        args: seq![
            (
                declared(
                    "input",
                    None,
                    None,
                    Some("INPUT"),
                    None,
                    "Input gzip file, URL (http/https), or '-' for standard input",
                    Seq::empty(),
                ),
                ArgKind::Text,
            ),
            (
                declared(
                    "output",
                    Some('o'),
                    Some("output"),
                    Some("OUTPUT"),
                    None,
                    "Output file. If not specified, a local file input is decompressed into an inferred path",
                    seq!["stdout"@],
                ),
                ArgKind::Path,
            ),
            (
                declared(
                    "stdout",
                    Some('c'),
                    Some("stdout"),
                    None,
                    None,
                    "Write decompressed data to standard output",
                    Seq::empty(),
                ),
                ArgKind::Switch,
            ),
            (
                declared(
                    "force",
                    Some('f'),
                    Some("force"),
                    None,
                    None,
                    "Force overwriting an existing output file",
                    Seq::empty(),
                ),
                ArgKind::Switch,
            ),
            (
                declared(
                    "decompress",
                    Some('d'),
                    Some("decompress"),
                    None,
                    None,
                    "Accepted for gzip compatibility. Only decompression is supported",
                    Seq::empty(),
                ),
                ArgKind::Switch,
            ),
            (
                declared(
                    "keep",
                    Some('k'),
                    Some("keep"),
                    None,
                    None,
                    "Accepted for gzip compatibility. rapidgzip-rs-cli never deletes the input file",
                    Seq::empty(),
                ),
                ArgKind::Switch,
            ),
            (
                parallelism_declared(),
                ArgKind::U32,
            ),
            (
                declared(
                    "chunk_size",
                    None,
                    Some("chunk-size"),
                    Some("CHUNK_SIZE"),
                    Some("4194304"),
                    "Chunk size in bytes (default: 4194304, i.e., 4MiB)",
                    Seq::empty(),
                ),
                ArgKind::U64,
            ),
            (
                declared(
                    "export_index",
                    None,
                    Some("export-index"),
                    Some("EXPORT_INDEX"),
                    None,
                    "Export index to this file after reading",
                    Seq::empty(),
                ),
                ArgKind::Path,
            ),
            (
                declared(
                    "import_index",
                    None,
                    Some("import-index"),
                    Some("IMPORT_INDEX"),
                    None,
                    "Import index from this file or HTTP/HTTPS URL before reading",
                    Seq::empty(),
                ),
                ArgKind::Path,
            ),
            (
                declared(
                    "io_read_mode",
                    None,
                    Some("io-read-mode"),
                    Some("IO_READ_MODE"),
                    Some("auto"),
                    "Select the native compressed-input I/O strategy",
                    Seq::empty(),
                ),
                ArgKind::Choice(io_read_modes()),
            ),
            (
                declared(
                    "keep_index",
                    None,
                    Some("keep-index"),
                    Some("KEEP_INDEX"),
                    Some("auto"),
                    "Control whether the native reader keeps its in-memory index after use",
                    Seq::empty(),
                ),
                ArgKind::Choice(keep_index_modes()),
            ),
            (
                declared(
                    "count",
                    None,
                    Some("count"),
                    None,
                    None,
                    "Print the decompressed byte count without writing the data stream",
                    seq!["count_lines"@, "benchmark_only"@, "output"@, "stdout"@],
                ),
                ArgKind::Switch,
            ),
            (
                declared(
                    "count_lines",
                    Some('l'),
                    Some("count-lines"),
                    None,
                    None,
                    "Print the number of newline characters in the decompressed stream",
                    seq!["count"@, "benchmark_only"@, "output"@, "stdout"@],
                ),
                ArgKind::Switch,
            ),
            (
                declared(
                    "benchmark_only",
                    None,
                    Some("benchmark-only"),
                    None,
                    None,
                    "Discard decompressed data and print benchmark throughput",
                    seq!["count"@, "count_lines"@, "output"@, "stdout"@],
                ),
                ArgKind::Switch,
            ),
            (
                declared(
                    "quiet",
                    Some('q'),
                    Some("quiet"),
                    None,
                    None,
                    "Suppress progress and informational messages",
                    seq!["verbose"@],
                ),
                ArgKind::Switch,
            ),
            (
                declared(
                    "verbose",
                    Some('v'),
                    Some("verbose"),
                    None,
                    None,
                    "Print additional progress and diagnostic information",
                    seq!["quiet"@],
                ),
                ArgKind::Switch,
            ),
        ],
    }
}

/// Builds an argument; one without names is positional and required.
fn argument(
    id: &'static str,
    short: Option<char>,
    long: Option<&'static str>,
    value_name: Option<&'static str>,
    default: Option<&'static str>,
    help: &'static str,
    conflicts: Vec<&'static str>,
) -> (r: clap::Arg)
    requires
        short != Some('-'),
    ensures
        arguments::arg_settings(r) == declared(
            id,
            short,
            long,
            value_name,
            default,
            help,
            arguments::views(conflicts@),
        ),
{
    let required: bool = short.is_none() && long.is_none();
    declare(
        &ArgSpec { id, short, long, alias: None, value_name, default, help, required, conflicts },
    )
}

/// Builds the argument for the number of threads.
fn parallelism_argument() -> (r: clap::Arg)
    ensures
        arguments::arg_settings(r) == parallelism_declared(),
{
    declare(
        &ArgSpec {
            id: "parallelism",
            short: Some('P'),
            long: Some("parallelism"),
            alias: Some("parallelism"),
            value_name: Some("PARALLELISM"),
            default: Some("0"),
            help:
                "Number of threads (parallelism). 0 means automatic (based on CPU cores)",
            required: false,
            conflicts: none(),
        },
    )
}

/// The names of the read modes, and what is said of each.
fn io_read_mode_choices() -> (r: Vec<(&'static str, &'static str)>)
    ensures
        arguments::choice_views(r@) == io_read_modes(),
{
    let choices: Vec<(&'static str, &'static str)> = vec![
        ("auto", "Keep the native default behavior for the current input type"),
        (
            "sequential",
            "Force sequential buffered reads. Useful for HDD-heavy or linear-read workloads",
        ),
        (
            "pread",
            "Force positioned reads on seekable files. Useful for SSD-friendly parallel access",
        ),
        (
            "locked-read-and-seek",
            "Force shared read/seek operations without pread. Useful as a conservative fallback",
        ),
    ];
    assert(arguments::choice_views(choices@) =~= io_read_modes());
    choices
}

/// The names of the modes of keeping the index, and what is said of each.
fn keep_index_choices() -> (r: Vec<(&'static str, &'static str)>)
    ensures
        arguments::choice_views(r@) == keep_index_modes(),
{
    let choices: Vec<(&'static str, &'static str)> = vec![
        ("auto", "Keep the native default behavior"),
        ("on", "Keep the in-memory index after reads complete"),
        ("off", "Drop the in-memory index when it is no longer needed"),
    ];
    assert(arguments::choice_views(choices@) =~= keep_index_modes());
    choices
}

/// Builds the command line of the program.
fn build_command_line() -> (r: clap::Command)
    ensures
        arguments::command_contents(r) == command_line(),
{
    let command = new_command(
        "rapidgzip-rs-cli",
        "0.1.0",
        "Command-line decompressor for .gz and .bgz data based on rapidgzip-rs",
        "A high-performance parallel gzip decompressor CLI and benchmarking tool based on rapidgzip-rs.",
    );
    let command = with_text(
        command,
        argument(
            "input",
            None,
            None,
            Some("INPUT"),
            None,
            "Input gzip file, URL (http/https), or '-' for standard input",
            none(),
        ),
    );
    let conflicts: Vec<&'static str> = vec!["stdout"];
    assert(arguments::views(conflicts@) =~= seq!["stdout"@]);
    let command = with_path(
        command,
        argument(
            "output",
            Some('o'),
            Some("output"),
            Some("OUTPUT"),
            None,
            "Output file. If not specified, a local file input is decompressed into an inferred path",
            conflicts,
        ),
    );
    let command = with_switch(
        command,
        argument(
            "stdout",
            Some('c'),
            Some("stdout"),
            None,
            None,
            "Write decompressed data to standard output",
            none(),
        ),
    );
    let command = with_switch(
        command,
        argument(
            "force",
            Some('f'),
            Some("force"),
            None,
            None,
            "Force overwriting an existing output file",
            none(),
        ),
    );
    let command = with_switch(
        command,
        argument(
            "decompress",
            Some('d'),
            Some("decompress"),
            None,
            None,
            "Accepted for gzip compatibility. Only decompression is supported",
            none(),
        ),
    );
    let command = with_switch(
        command,
        argument(
            "keep",
            Some('k'),
            Some("keep"),
            None,
            None,
            "Accepted for gzip compatibility. rapidgzip-rs-cli never deletes the input file",
            none(),
        ),
    );
    let command = with_u32(command, parallelism_argument());
    let command = with_u64(
        command,
        argument(
            "chunk_size",
            None,
            Some("chunk-size"),
            Some("CHUNK_SIZE"),
            Some("4194304"),
            "Chunk size in bytes (default: 4194304, i.e., 4MiB)",
            none(),
        ),
    );
    let command = with_path(
        command,
        argument(
            "export_index",
            None,
            Some("export-index"),
            Some("EXPORT_INDEX"),
            None,
            "Export index to this file after reading",
            none(),
        ),
    );
    let command = with_path(
        command,
        argument(
            "import_index",
            None,
            Some("import-index"),
            Some("IMPORT_INDEX"),
            None,
            "Import index from this file or HTTP/HTTPS URL before reading",
            none(),
        ),
    );
    let command = with_choice(
        command,
        argument(
            "io_read_mode",
            None,
            Some("io-read-mode"),
            Some("IO_READ_MODE"),
            Some("auto"),
            "Select the native compressed-input I/O strategy",
            none(),
        ),
        io_read_mode_choices(),
    );
    let command = with_choice(
        command,
        argument(
            "keep_index",
            None,
            Some("keep-index"),
            Some("KEEP_INDEX"),
            Some("auto"),
            "Control whether the native reader keeps its in-memory index after use",
            none(),
        ),
        keep_index_choices(),
    );
    let conflicts: Vec<&'static str> = vec!["count_lines", "benchmark_only", "output", "stdout"];
    assert(arguments::views(conflicts@) =~= seq!["count_lines"@, "benchmark_only"@, "output"@, "stdout"@]);
    let command = with_switch(
        command,
        argument(
            "count",
            None,
            Some("count"),
            None,
            None,
            "Print the decompressed byte count without writing the data stream",
            conflicts,
        ),
    );
    let conflicts: Vec<&'static str> = vec!["count", "benchmark_only", "output", "stdout"];
    assert(arguments::views(conflicts@) =~= seq!["count"@, "benchmark_only"@, "output"@, "stdout"@]);
    let command = with_switch(
        command,
        argument(
            "count_lines",
            Some('l'),
            Some("count-lines"),
            None,
            None,
            "Print the number of newline characters in the decompressed stream",
            conflicts,
        ),
    );
    let conflicts: Vec<&'static str> = vec!["count", "count_lines", "output", "stdout"];
    assert(arguments::views(conflicts@) =~= seq!["count"@, "count_lines"@, "output"@, "stdout"@]);
    let command = with_switch(
        command,
        argument(
            "benchmark_only",
            None,
            Some("benchmark-only"),
            None,
            None,
            "Discard decompressed data and print benchmark throughput",
            conflicts,
        ),
    );
    let conflicts: Vec<&'static str> = vec!["verbose"];
    assert(arguments::views(conflicts@) =~= seq!["verbose"@]);
    let command = with_switch(
        command,
        argument(
            "quiet",
            Some('q'),
            Some("quiet"),
            None,
            None,
            "Suppress progress and informational messages",
            conflicts,
        ),
    );
    let conflicts: Vec<&'static str> = vec!["quiet"];
    assert(arguments::views(conflicts@) =~= seq!["quiet"@]);
    let command = with_switch(
        command,
        argument(
            "verbose",
            Some('v'),
            Some("verbose"),
            None,
            None,
            "Print additional progress and diagnostic information",
            conflicts,
        ),
    );
    assert(arguments::command_contents(command).args =~= command_line().args);
    command
}

/// The list of conflicts of an argument that has none.
fn none() -> (r: Vec<&'static str>)
    ensures
        arguments::views(r@) == Seq::<Seq<char>>::empty(),
{
    let conflicts: Vec<&'static str> = Vec::new();
    assert(arguments::views(conflicts@) =~= Seq::<Seq<char>>::empty());
    conflicts
}

/// What the command line gave, argument by argument; an absent value stands for
/// an argument that was not given and has no default.
#[derive(Debug)]
pub struct RawArgs {
    pub input: Option<String>,
    pub output: Option<PathBuf>,
    pub stdout: bool,
    pub force: bool,
    pub decompress: bool,
    pub keep: bool,
    pub parallelism: Option<u32>,
    pub chunk_size: Option<u64>,
    pub export_index: Option<PathBuf>,
    pub import_index: Option<PathBuf>,
    pub io_read_mode: Option<String>,
    pub keep_index: Option<String>,
    pub count: bool,
    pub count_lines: bool,
    pub benchmark_only: bool,
    pub quiet: bool,
    pub verbose: bool,
}

/// The value of `map` at `key`, if there is one.
pub open spec fn lookup<V>(map: Map<Seq<char>, V>, key: Seq<char>) -> Option<V> {
    if map.contains_key(key) {
        Some(map[key])
    } else {
        None
    }
}

impl RawArgs {
    /// Whether these are the arguments that were found on the command line.
    pub open spec fn came_from(self, found: Matched) -> bool {
        &&& text::owned_view_of(self.input) == lookup(found.texts, "input"@)
        &&& self.output == lookup(found.paths, "output"@)
        &&& self.stdout == found.switches.contains("stdout"@)
        &&& self.force == found.switches.contains("force"@)
        &&& self.decompress == found.switches.contains("decompress"@)
        &&& self.keep == found.switches.contains("keep"@)
        &&& self.parallelism == lookup(found.u32s, "parallelism"@)
        &&& self.chunk_size == lookup(found.u64s, "chunk_size"@)
        &&& self.export_index == lookup(found.paths, "export_index"@)
        &&& self.import_index == lookup(found.paths, "import_index"@)
        &&& text::owned_view_of(self.io_read_mode) == lookup(found.texts, "io_read_mode"@)
        &&& text::owned_view_of(self.keep_index) == lookup(found.texts, "keep_index"@)
        &&& self.count == found.switches.contains("count"@)
        &&& self.count_lines == found.switches.contains("count_lines"@)
        &&& self.benchmark_only == found.switches.contains("benchmark_only"@)
        &&& self.quiet == found.switches.contains("quiet"@)
        &&& self.verbose == found.switches.contains("verbose"@)
    }

    /// The read mode asked for, if its name is known.
    pub open spec fn read_mode(self) -> Option<IoReadModeArg> {
        match self.io_read_mode {
            Some(name) => io_read_mode_of(name@),
            None => None,
        }
    }

    /// The mode of keeping the index asked for, if its name is known.
    pub open spec fn index_mode(self) -> Option<KeepIndexMode> {
        match self.keep_index {
            Some(name) => keep_index_of(name@),
            None => None,
        }
    }

    /// Whether the arguments make a command line: there are an input and the two
    /// numbers, and the modes have known names.
    pub open spec fn complete(self) -> bool {
        &&& self.input is Some
        &&& self.parallelism is Some
        &&& self.chunk_size is Some
        &&& self.read_mode() is Some
        &&& self.index_mode() is Some
    }

    /// Whether `cli` is the command line of these arguments.
    pub open spec fn denotes(self, cli: Cli) -> bool {
        &&& self.input is Some && cli.input@ == self.input->0@
        &&& cli.output == self.output
        &&& cli.stdout == self.stdout
        &&& cli.force == self.force
        &&& cli.decompress == self.decompress
        &&& cli.keep == self.keep
        &&& Some(cli.parallelism) == self.parallelism
        &&& Some(cli.chunk_size) == self.chunk_size
        &&& cli.export_index == self.export_index
        &&& cli.import_index == self.import_index
        &&& Some(cli.io_read_mode) == self.read_mode()
        &&& Some(cli.keep_index) == self.index_mode()
        &&& cli.count == self.count
        &&& cli.count_lines == self.count_lines
        &&& cli.benchmark_only == self.benchmark_only
        &&& cli.quiet == self.quiet
        &&& cli.verbose == self.verbose
    }
}

impl Cli {
    /// Makes the command line of the given arguments, if they make one.
    pub fn from_raw(raw: RawArgs) -> (r: Option<Cli>)
        ensures
            r is Some <==> raw.complete(),
            r matches Some(cli) ==> raw.denotes(cli),
    {
        let io_read_mode: Option<IoReadModeArg> = match &raw.io_read_mode {
            Some(name) => IoReadModeArg::from_name(name.as_str()),
            None => None,
        };
        let keep_index: Option<KeepIndexMode> = match &raw.keep_index {
            Some(name) => KeepIndexMode::from_name(name.as_str()),
            None => None,
        };
        match (raw.input, raw.parallelism, raw.chunk_size, io_read_mode, keep_index) {
            (
                Some(input),
                Some(parallelism),
                Some(chunk_size),
                Some(io_read_mode),
                Some(keep_index),
            ) => Some(
                Cli {
                    input,
                    output: raw.output,
                    stdout: raw.stdout,
                    force: raw.force,
                    decompress: raw.decompress,
                    keep: raw.keep,
                    parallelism,
                    chunk_size,
                    export_index: raw.export_index,
                    import_index: raw.import_index,
                    io_read_mode,
                    keep_index,
                    count: raw.count,
                    count_lines: raw.count_lines,
                    benchmark_only: raw.benchmark_only,
                    quiet: raw.quiet,
                    verbose: raw.verbose,
                },
            ),
            _ => None,
        }
    }

    /// Whether no two options are set of which one excludes the other.
    pub open spec fn consistent(self) -> bool {
        &&& !(self.output is Some && self.stdout)
        &&& !(self.quiet && self.verbose)
        &&& !(self.count && self.count_lines)
        &&& !(self.count && self.benchmark_only)
        &&& !(self.count_lines && self.benchmark_only)
        &&& self.count || self.count_lines || self.benchmark_only ==> self.output is None
            && !self.stdout
    }

    /// Whether every option that has a default and is not among the `given` ones
    /// has that default.
    pub open spec fn defaults_but(self, given: Set<Seq<char>>) -> bool {
        &&& !given.contains("parallelism"@) ==> self.parallelism == 0
        &&& !given.contains("chunk_size"@) ==> self.chunk_size == 4194304
        &&& !given.contains("io_read_mode"@) ==> self.io_read_mode == IoReadModeArg::Auto
        &&& !given.contains("keep_index"@) ==> self.keep_index == KeepIndexMode::Auto
    }

    /// Takes the arguments of the program apart, the first of which is its name.
    /// Options that exclude each other are never both set in the result, and
    /// those that are not given have their defaults.
    pub fn try_parse_from(argv: Vec<PathBuf>) -> (r: Result<Cli, UsageError>)
        ensures
            r is Ok <==> arguments::clap_outcome(command_line(), argv@) is Ok,
            r matches Ok(cli) ==> {
                &&& cli.consistent()
                &&& cli.defaults_but(
                    arguments::clap_outcome(command_line(), argv@)->Ok_0.given,
                )
                &&& exists|raw: RawArgs|
                    #[trigger] raw.came_from(
                        arguments::clap_outcome(command_line(), argv@)->Ok_0,
                    ) && raw.denotes(cli)
            },
            r matches Err(error) ==> (error.message@, error.exit_code)
                == arguments::clap_outcome(command_line(), argv@)->Err_0,
    {
        let command = build_command_line();
        match take_apart(command, argv) {
            Err(error) => Err(error),
            Ok(matches) => {
                let raw = read_matches(&matches);
                let ghost given = raw;
                proof {
                    lemma_accepted(raw, arguments::matches_contents(matches));
                }
                match Cli::from_raw(raw) {
                    Some(cli) => {
                        assert(given.came_from(arguments::matches_contents(matches)));
                        Ok(cli)
                    },
                    None => Err(UsageError { message: String::new(), exit_code: 2 }),
                }
            },
        }
    }
}

/// Reads the arguments out of what was found on the command line.
fn read_matches(matches: &clap::ArgMatches) -> (r: RawArgs)
    ensures
        r.came_from(arguments::matches_contents(*matches)),
{
    RawArgs {
        input: text_in(matches, "input"),
        output: path_in(matches, "output"),
        stdout: switch_in(matches, "stdout"),
        force: switch_in(matches, "force"),
        decompress: switch_in(matches, "decompress"),
        keep: switch_in(matches, "keep"),
        parallelism: u32_in(matches, "parallelism"),
        chunk_size: u64_in(matches, "chunk_size"),
        export_index: path_in(matches, "export_index"),
        import_index: path_in(matches, "import_index"),
        io_read_mode: text_in(matches, "io_read_mode"),
        keep_index: text_in(matches, "keep_index"),
        count: switch_in(matches, "count"),
        count_lines: switch_in(matches, "count_lines"),
        benchmark_only: switch_in(matches, "benchmark_only"),
        quiet: switch_in(matches, "quiet"),
        verbose: switch_in(matches, "verbose"),
    }
}

/// What was found on an accepted command line is complete, sets no two options
/// that exclude each other, and holds the defaults of what was not given.
proof fn lemma_accepted(raw: RawArgs, found: Matched)
    requires
        raw.came_from(found),
        found.respects_conflicts(command_line().args),
        found.respects_required(command_line().args),
        found.respects_choices(command_line().args),
        found.respects_defaults(command_line().args),
    ensures
        raw.complete(),
        !(raw.output is Some && raw.stdout),
        !(raw.quiet && raw.verbose),
        !(raw.count && raw.count_lines),
        !(raw.count && raw.benchmark_only),
        !(raw.count_lines && raw.benchmark_only),
        raw.count || raw.count_lines || raw.benchmark_only ==> raw.output is None && !raw.stdout,
        !found.given.contains("parallelism"@) ==> raw.parallelism == Some(0u32),
        !found.given.contains("chunk_size"@) ==> raw.chunk_size == Some(4194304u64),
        !found.given.contains("io_read_mode"@) ==> raw.read_mode() == Some(IoReadModeArg::Auto),
        !found.given.contains("keep_index"@) ==> raw.index_mode() == Some(KeepIndexMode::Auto),
{
    let args = command_line().args;
    lemma_input_is_free();
    lemma_default_numbers();
    assert(args[6].0.id == "parallelism"@ && args[7].0.id == "chunk_size"@);
    assert(args[0].0.id == "input"@ && args[1].0.id == "output"@ && args[2].0.id == "stdout"@);
    assert(args[10].0.id == "io_read_mode"@ && args[11].0.id == "keep_index"@);
    assert(args[12].0.id == "count"@ && args[13].0.id == "count_lines"@);
    assert(args[14].0.id == "benchmark_only"@);
    assert(args[15].0.id == "quiet"@ && args[16].0.id == "verbose"@);
    assert(args[1].0.conflicts[0] == "stdout"@);
    assert(args[15].0.conflicts[0] == "verbose"@);
    let (count, lines, bench) = (
        args[12].0.conflicts,
        args[13].0.conflicts,
        args[14].0.conflicts,
    );
    assert(count[0] == "count_lines"@ && count[1] == "benchmark_only"@);
    assert(lines[1] == "benchmark_only"@);
    assert(count[2] == "output"@ && count[3] == "stdout"@);
    assert(lines[2] == "output"@ && lines[3] == "stdout"@);
    assert(bench[2] == "output"@ && bench[3] == "stdout"@);
}

/// What the defaults of the two numbers denote.
proof fn lemma_default_numbers()
    ensures
        decimal::u64_of_text("0"@) == Some(0u64),
        decimal::u64_of_text("4194304"@) == Some(4194304u64),
{
    reveal_strlit("0");
    reveal_strlit("4194304");
    assert("0"@ =~= decimal::text(0));
    decimal::law_decimal_reads_back(0);
    reveal_with_fuel(decimal::text, 8);
    assert("4194304"@ =~= decimal::text(4194304));
    decimal::law_decimal_reads_back(4194304);
}

/// Nothing excludes the input.
proof fn lemma_input_is_free()
    ensures
        forall|j: int|
            #![trigger command_line().args[j]]
            0 <= j < command_line().args.len() ==> !command_line().args[j].0.conflicts.contains(
                "input"@,
            ),
{
    reveal_strlit("input");
    reveal_strlit("stdout");
    reveal_strlit("output");
    reveal_strlit("count");
    reveal_strlit("count_lines");
    reveal_strlit("benchmark_only");
    reveal_strlit("quiet");
    reveal_strlit("verbose");
    assert("input"@[0] == 'i');
    assert("count"@[0] == 'c');
    assert("quiet"@[0] == 'q');
    assert("stdout"@.len() == 6);
    assert("output"@.len() == 6);
    assert("count_lines"@.len() == 11);
    assert("benchmark_only"@.len() == 14);
    assert("verbose"@.len() == 7);
}

} // verus!

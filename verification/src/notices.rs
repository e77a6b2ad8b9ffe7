//! What a run tells the user on its way.

use std::path::PathBuf;
use vstd::prelude::*;

use crate::cli::{Cli, IoReadModeArg, KeepIndexMode};
use crate::decimal;
use crate::decimal::append_decimal;
use crate::input;
use crate::input::{
    resolve_io_read_mode, resolved_parallelism, should_force_sequential_for_url_no_index,
    InputKind,
};
use crate::output::OutputTarget;
use crate::paths;
use crate::paths::{display, quoted};
use crate::session;
use crate::session::{job_of, Job, Phase};

verus! {

/// The message, unless the user wants no information.
pub fn log_info(cli: &Cli, message: String) -> (r: Option<String>)
    ensures
        r == if cli.quiet {
            None
        } else {
            Some(message)
        },
{
    if cli.quiet {
        None
    } else {
        Some(message)
    }
}

/// The message, if the user wants all details.
pub fn log_verbose(cli: &Cli, message: String) -> (r: Option<String>)
    ensures
        r == if cli.verbose {
            Some(message)
        } else {
            None
        },
{
    if cli.verbose {
        Some(message)
    } else {
        None
    }
}

/// The views of some messages.
pub open spec fn texts(messages: Seq<String>) -> Seq<Seq<char>> {
    Seq::new(messages.len(), |i: int| messages[i]@)
}

/// What is said of sequential reads that were not asked for.
pub open spec fn forced_sequential_text() -> Seq<char> {
    ">> URL input without an imported index uses sequential buffered reads to avoid redundant HTTP range requests."@
}

/// Whether reading the input takes much memory: sequential reads from a web
/// address by several threads without an index.
pub open spec fn takes_memory(cli: Cli, kind: InputKind, workers: nat) -> bool {
    &&& kind is Url
    &&& cli.import_index is None
    &&& input::effective_mode(cli, kind) == IoReadModeArg::Sequential
    &&& workers > 1
}

/// What is said of an input that takes much memory.
pub open spec fn memory_text(workers: nat) -> Seq<char> {
    ">> Warning: sequential URL decoding with parallelism "@ + decimal::text(workers)
        + " retains more compressed input in memory for correctness. Memory usage may be significant; prefer -P 1 or import an index if needed."@
}

/// What is said before the input is opened.
pub open spec fn startup_texts(cli: Cli, kind: InputKind, workers: nat) -> Seq<Seq<char>> {
    let forced = if input::forces_sequential(cli, kind) {
        seq![forced_sequential_text()]
    } else {
        Seq::empty()
    };
    let memory = if takes_memory(cli, kind, workers) {
        seq![memory_text(workers)]
    } else {
        Seq::empty()
    };
    if cli.quiet {
        Seq::empty()
    } else {
        forced + memory
    }
}

/// The messages to print before the input is opened. `available` is the number
/// of threads that the machine runs at once, where it is known.
pub fn startup_notices(cli: &Cli, input_kind: &InputKind, available: Option<usize>) -> (r: Vec<
    String,
>)
    ensures
        texts(r@) == startup_texts(
            *cli,
            *input_kind,
            input::effective_parallelism(cli.parallelism, available),
        ),
{
    let workers: u32 = resolved_parallelism(cli.parallelism, available);
    let mode: IoReadModeArg = resolve_io_read_mode(cli, input_kind);
    let web: bool = match input_kind {
        InputKind::Url => true,
        _ => false,
    };
    let mut notices: Vec<String> = Vec::new();
    if should_force_sequential_for_url_no_index(cli, input_kind) {
        let message =
            ">> URL input without an imported index uses sequential buffered reads to avoid redundant HTTP range requests.".to_owned();
        if let Some(notice) = log_info(cli, message) {
            notices.push(notice);
        }
    }
    if web && cli.import_index.is_none() && mode == IoReadModeArg::Sequential && workers > 1 {
        let mut message = String::new();
        message.append(">> Warning: sequential URL decoding with parallelism ");
        append_decimal(&mut message, workers as u64);
        message.append(
            " retains more compressed input in memory for correctness. Memory usage may be significant; prefer -P 1 or import an index if needed.",
        );
        if let Some(notice) = log_info(cli, message) {
            notices.push(notice);
        }
    }
    assert(texts(notices@) =~= startup_texts(*cli, *input_kind, workers as nat));
    notices
}

/// The name of a read mode in diagnostic messages.
pub open spec fn mode_text(mode: IoReadModeArg) -> Seq<char> {
    match mode {
        IoReadModeArg::Auto => "Auto"@,
        IoReadModeArg::Sequential => "Sequential"@,
        IoReadModeArg::Pread => "Pread"@,
        IoReadModeArg::LockedReadAndSeek => "LockedReadAndSeek"@,
    }
}

/// The name of a mode of keeping the index in diagnostic messages.
pub open spec fn keep_text(mode: KeepIndexMode) -> Seq<char> {
    match mode {
        KeepIndexMode::Auto => "Auto"@,
        KeepIndexMode::On => "On"@,
        KeepIndexMode::Off => "Off"@,
    }
}

/// The name of a read mode in diagnostic messages.
fn mode_name(mode: IoReadModeArg) -> (r: &'static str)
    ensures
        r@ == mode_text(mode),
{
    match mode {
        IoReadModeArg::Auto => "Auto",
        IoReadModeArg::Sequential => "Sequential",
        IoReadModeArg::Pread => "Pread",
        IoReadModeArg::LockedReadAndSeek => "LockedReadAndSeek",
    }
}

/// The name of a mode of keeping the index in diagnostic messages.
fn keep_name(mode: KeepIndexMode) -> (r: &'static str)
    ensures
        r@ == keep_text(mode),
{
    match mode {
        KeepIndexMode::Auto => "Auto",
        KeepIndexMode::On => "On",
        KeepIndexMode::Off => "Off",
    }
}

/// What is said of the set-up of the native reader.
pub open spec fn config_text(cli: Cli, kind: InputKind) -> Seq<char> {
    ">> Builder config: parallelism="@ + decimal::text(cli.parallelism as nat) + ", chunk_size="@
        + decimal::text(cli.chunk_size as nat) + ", requested_io_read_mode="@ + mode_text(
        cli.io_read_mode,
    ) + ", effective_io_read_mode="@ + mode_text(input::effective_mode(cli, kind))
        + ", keep_index="@ + keep_text(cli.keep_index)
}

/// The message on the set-up of the native reader, if the user wants all details.
pub fn config_notice(cli: &Cli, input_kind: &InputKind) -> (r: Option<String>)
    ensures
        r is Some <==> cli.verbose,
        r matches Some(notice) ==> notice@ == config_text(*cli, *input_kind),
{
    let mut message = String::new();
    message.append(">> Builder config: parallelism=");
    append_decimal(&mut message, cli.parallelism as u64);
    message.append(", chunk_size=");
    append_decimal(&mut message, cli.chunk_size);
    message.append(", requested_io_read_mode=");
    message.append(mode_name(cli.io_read_mode));
    message.append(", effective_io_read_mode=");
    message.append(mode_name(resolve_io_read_mode(cli, input_kind)));
    message.append(", keep_index=");
    message.append(keep_name(cli.keep_index));
    log_verbose(cli, message)
}

/// What is said when the input is opened.
pub open spec fn opening_text(cli: Cli, kind: InputKind) -> Seq<char> {
    match kind {
        InputKind::Stdin =>
            ">> Spooling standard input into a temporary file for seekable decompression..."@,
        InputKind::Url => ">> Opening URL: "@ + cli.input@,
        InputKind::LocalPath(_) => ">> Opening file: "@ + cli.input@,
    }
}

/// The message for the opening of the input, unless the user wants no
/// information.
pub fn opening_notice(cli: &Cli, input_kind: &InputKind) -> (r: Option<String>)
    ensures
        r is Some <==> !cli.quiet,
        r matches Some(notice) ==> notice@ == opening_text(*cli, *input_kind),
{
    let mut message = String::new();
    match input_kind {
        InputKind::Stdin => {
            message.append(
                ">> Spooling standard input into a temporary file for seekable decompression...",
            );
        },
        InputKind::Url => {
            message.append(">> Opening URL: ");
            message.append(cli.input.as_str());
        },
        InputKind::LocalPath(_) => {
            message.append(">> Opening file: ");
            message.append(cli.input.as_str());
        },
    }
    log_info(cli, message)
}

/// What is said of an input that could not be opened.
pub open spec fn open_failure_text(cli: Cli, kind: InputKind) -> Seq<char> {
    match kind {
        InputKind::Stdin => "Failed to open spooled standard input in rapidgzip"@,
        InputKind::Url => "Failed to open HTTP reader in rapidgzip"@,
        InputKind::LocalPath(_) => "Failed to open input file: "@ + cli.input@,
    }
}

/// The message for an input that could not be opened.
pub fn open_failure(cli: &Cli, input_kind: &InputKind) -> (r: String)
    ensures
        r@ == open_failure_text(*cli, *input_kind),
{
    let mut message = String::new();
    match input_kind {
        InputKind::Stdin => {
            message.append("Failed to open spooled standard input in rapidgzip");
        },
        InputKind::Url => {
            message.append("Failed to open HTTP reader in rapidgzip");
        },
        InputKind::LocalPath(_) => {
            message.append("Failed to open input file: ");
            message.append(cli.input.as_str());
        },
    }
    message
}

/// What is said of options that have no effect.
pub open spec fn compatibility_texts(cli: Cli) -> Seq<Seq<char>> {
    let decompress = if cli.decompress {
        seq![
            ">> --decompress accepted for compatibility; rapidgzip-rs-cli only supports decompression"@,
        ]
    } else {
        Seq::empty()
    };
    let keep = if cli.keep {
        seq![
            ">> --keep accepted for compatibility; rapidgzip-rs-cli never deletes the input file"@,
        ]
    } else {
        Seq::empty()
    };
    if cli.verbose {
        decompress + keep
    } else {
        Seq::empty()
    }
}

/// The messages on options that have no effect, if the user wants all details.
pub fn compatibility_notices(cli: &Cli) -> (r: Vec<String>)
    ensures
        texts(r@) == compatibility_texts(*cli),
{
    let mut notices: Vec<String> = Vec::new();
    if cli.decompress {
        let message =
            ">> --decompress accepted for compatibility; rapidgzip-rs-cli only supports decompression".to_owned();
        if let Some(notice) = log_verbose(cli, message) {
            notices.push(notice);
        }
    }
    if cli.keep {
        let message =
            ">> --keep accepted for compatibility; rapidgzip-rs-cli never deletes the input file".to_owned();
        if let Some(notice) = log_verbose(cli, message) {
            notices.push(notice);
        }
    }
    assert(texts(notices@) =~= compatibility_texts(*cli));
    notices
}

/// The message on the file that the output goes into, if there is one and the
/// user wants all details.
pub fn output_notice(cli: &Cli, target: &OutputTarget) -> (r: Option<String>)
    ensures
        r is Some <==> cli.verbose && target is File,
        r matches Some(notice) ==> notice@ == ">> Output file: "@ + paths::path_display(
            target->File_0,
        ),
{
    match target {
        OutputTarget::File(path) => {
            let mut message = String::new();
            message.append(">> Output file: ");
            message.append(display(path).as_str());
            log_verbose(cli, message)
        },
        _ => None,
    }
}

/// The message that names the path of an index behind `what`, if there is one,
/// unless the user wants no information.
fn index_notice(cli: &Cli, what: &str, index: &Option<PathBuf>) -> (r: Option<String>)
    ensures
        r is Some <==> !cli.quiet && index is Some,
        r matches Some(notice) ==> notice@ == what@ + paths::path_debug(index->0),
{
    match index {
        Some(path) => {
            let mut message = String::new();
            message.append(what);
            message.append(quoted(path).as_str());
            log_info(cli, message)
        },
        None => None,
    }
}

/// The message for the import of the index, if one is imported, unless the user
/// wants no information.
pub fn import_notice(cli: &Cli) -> (r: Option<String>)
    ensures
        r is Some <==> !cli.quiet && cli.import_index is Some,
        r matches Some(notice) ==> notice@ == ">> Importing index from "@ + paths::path_debug(
            cli.import_index->0,
        ),
{
    index_notice(cli, ">> Importing index from ", &cli.import_index)
}

/// The message for the export of the index, if it is exported, unless the user
/// wants no information.
pub fn export_notice(cli: &Cli) -> (r: Option<String>)
    ensures
        r is Some <==> !cli.quiet && cli.export_index is Some,
        r matches Some(notice) ==> notice@ == ">> Exporting index to "@ + paths::path_debug(
            cli.export_index->0,
        ),
{
    index_notice(cli, ">> Exporting index to ", &cli.export_index)
}

/// What is said when the decompression starts, if anything is.
pub open spec fn job_text(job: Job) -> Option<Seq<char>> {
    match job {
        Job::Benchmark => Some(
            ">> Decompressing (benchmark-only mode: data will be discarded)..."@,
        ),
        Job::Decompress => Some(">> Decompressing..."@),
        _ => None,
    }
}

/// The message for the start of the decompression: none where a number is the
/// only output, or where the user wants no information.
pub fn job_notice(cli: &Cli, job: Job) -> (r: Option<String>)
    ensures
        r is Some <==> !cli.quiet && job_text(job) is Some,
        r matches Some(notice) ==> Some(notice@) == job_text(job),
{
    match job {
        Job::Benchmark => log_info(
            cli,
            ">> Decompressing (benchmark-only mode: data will be discarded)...".to_owned(),
        ),
        Job::Decompress => log_info(cli, ">> Decompressing...".to_owned()),
        _ => None,
    }
}

/// The message for a run that the user cancelled, unless they want no
/// information.
pub fn cancelled_notice(cli: &Cli) -> (r: Option<String>)
    ensures
        r is Some <==> !cli.quiet,
        r matches Some(notice) ==> notice@
            == ">> Operation cancelled. Temporary output will be discarded."@,
{
    log_info(cli, ">> Operation cancelled. Temporary output will be discarded.".to_owned())
}

/// One message, where the condition holds.
pub open spec fn text_if(condition: bool, text: Seq<char>) -> Seq<Seq<char>> {
    if condition {
        seq![text]
    } else {
        Seq::empty()
    }
}

/// What is said before the input is opened, down to the name of the input.
pub open spec fn open_texts(cli: Cli, kind: InputKind, workers: nat) -> Seq<Seq<char>> {
    startup_texts(cli, kind, workers) + text_if(cli.verbose, config_text(cli, kind)) + text_if(
        !cli.quiet,
        opening_text(cli, kind),
    )
}

/// What is said once the input is ready, before anything is done to the output.
pub open spec fn ready_texts(cli: Cli, target: OutputTarget) -> Seq<Seq<char>> {
    compatibility_texts(cli) + text_if(
        cli.verbose && target is File,
        ">> Output file: "@ + paths::path_display(target->File_0),
    )
}

/// What is said when a run goes from the step `earlier` on to the step `now`: of
/// that step, and of what lies between the two. The options without effect and
/// the output file come once the input is ready, and the start of the
/// decompression once the output is.
pub open spec fn step_texts(
    cli: Cli,
    kind: InputKind,
    target: OutputTarget,
    workers: nat,
    earlier: Phase,
    now: Phase,
) -> Seq<Seq<char>> {
    let job = job_text(session::job_for(cli));
    let opening = if now == Phase::Open {
        open_texts(cli, kind, workers)
    } else {
        Seq::empty()
    };
    let importing = text_if(
        now == Phase::ImportIndex && !cli.quiet && cli.import_index is Some,
        ">> Importing index from "@ + paths::path_debug(cli.import_index->0),
    );
    let ready = if earlier.rank() <= Phase::ImportIndex.rank() < now.rank() {
        ready_texts(cli, target)
    } else {
        Seq::empty()
    };
    let starting = text_if(
        earlier.rank() <= Phase::PrepareOutput.rank() < now.rank() && !cli.quiet && job is Some,
        job->0,
    );
    let cancelled = text_if(
        now == Phase::Abort && !cli.quiet,
        ">> Operation cancelled. Temporary output will be discarded."@,
    );
    let exporting = text_if(
        now == Phase::ExportIndex && !cli.quiet && cli.export_index is Some,
        ">> Exporting index to "@ + paths::path_debug(cli.export_index->0),
    );
    opening + importing + ready + starting + cancelled + exporting
}

/// Whether a step comes no later than the import of the index.
fn input_not_ready(phase: Phase) -> (r: bool)
    ensures
        r == (phase.rank() <= Phase::ImportIndex.rank()),
{
    phase == Phase::Start || phase == Phase::Open || phase == Phase::ImportIndex
}

/// Whether a step comes no later than the preparation of the output file.
fn output_not_ready(phase: Phase) -> (r: bool)
    ensures
        r == (phase.rank() <= Phase::PrepareOutput.rank()),
{
    input_not_ready(phase) || phase == Phase::PrepareOutput
}

/// Appends a message, if there is one.
fn push_notice(notices: &mut Vec<String>, notice: Option<String>)
    ensures
        texts(final(notices)@) == texts(old(notices)@) + text_if(notice is Some, notice->0@),
{
    let ghost before = notices@;
    if let Some(notice) = notice {
        notices.push(notice);
    }
    assert(texts(notices@) =~= texts(before) + text_if(notice is Some, notice->0@));
}

/// Appends some messages.
fn push_notices(notices: &mut Vec<String>, more: Vec<String>)
    ensures
        texts(final(notices)@) == texts(old(notices)@) + texts(more@),
{
    let ghost before = notices@;
    let ghost added = more@;
    let mut more = more;
    notices.append(&mut more);
    assert(texts(notices@) =~= texts(before) + texts(added));
}

/// The messages to print when a run goes from the step `earlier` on to the step
/// `now`, before that step is performed. `available` is the number of threads
/// that the machine runs at once, where it is known.
pub fn step_notices(
    cli: &Cli,
    input_kind: &InputKind,
    target: &OutputTarget,
    available: Option<usize>,
    earlier: Phase,
    now: Phase,
) -> (r: Vec<String>)
    ensures
        texts(r@) == step_texts(
            *cli,
            *input_kind,
            *target,
            input::effective_parallelism(cli.parallelism, available),
            earlier,
            now,
        ),
{
    let mut notices: Vec<String> = Vec::new();
    if now == Phase::Open {
        push_notices(&mut notices, startup_notices(cli, input_kind, available));
        push_notice(&mut notices, config_notice(cli, input_kind));
        push_notice(&mut notices, opening_notice(cli, input_kind));
    }
    if now == Phase::ImportIndex {
        push_notice(&mut notices, import_notice(cli));
    }
    if input_not_ready(earlier) && !input_not_ready(now) {
        push_notices(&mut notices, compatibility_notices(cli));
        push_notice(&mut notices, output_notice(cli, target));
    }
    if output_not_ready(earlier) && !output_not_ready(now) {
        push_notice(&mut notices, job_notice(cli, job_of(cli)));
    }
    if now == Phase::Abort {
        push_notice(&mut notices, cancelled_notice(cli));
    }
    if now == Phase::ExportIndex {
        push_notice(&mut notices, export_notice(cli));
    }
    assert(texts(notices@) =~= step_texts(
        *cli,
        *input_kind,
        *target,
        input::effective_parallelism(cli.parallelism, available),
        earlier,
        now,
    ));
    notices
}

/// A quiet run says nothing, at any step.
pub proof fn law_quiet_says_nothing(
    cli: Cli,
    kind: InputKind,
    target: OutputTarget,
    workers: nat,
    earlier: Phase,
    now: Phase,
)
    requires
        cli.quiet,
        cli.consistent(),
    ensures
        step_texts(cli, kind, target, workers, earlier, now).len() == 0,
{
}

/// What is said between two steps does not depend on whether the step between
/// them is left out: the messages on the output and on the start of the
/// decompression come exactly once.
pub proof fn law_notices_come_once(
    cli: Cli,
    kind: InputKind,
    target: OutputTarget,
    workers: nat,
    earlier: Phase,
    now: Phase,
)
    requires
        earlier.rank() < Phase::PrepareOutput.rank(),
        now == Phase::Read || now == Phase::Report,
    ensures
        step_texts(cli, kind, target, workers, earlier, Phase::PrepareOutput) + step_texts(
            cli,
            kind,
            target,
            workers,
            Phase::PrepareOutput,
            now,
        ) == step_texts(cli, kind, target, workers, earlier, now),
        step_texts(cli, kind, target, workers, Phase::Read, now).len() == 0,
{
    assert(step_texts(cli, kind, target, workers, earlier, Phase::PrepareOutput) + step_texts(
        cli,
        kind,
        target,
        workers,
        Phase::PrepareOutput,
        now,
    ) =~= step_texts(cli, kind, target, workers, earlier, now));
}

} // verus!

//! What every call that words a message for the user gives, and when.

use vstd::prelude::*;

use crate::cli::{Cli, IoReadModeArg, KeepIndexMode};
use crate::decimal;
use crate::input::{resolve_io_read_mode, resolved_parallelism, InputKind};
use crate::notices;
use crate::notices::{
    cancelled_notice, compatibility_notices, config_notice, export_notice, import_notice,
    job_notice, log_info, log_verbose, open_failure, opening_notice, output_notice,
    startup_notices, step_notices,
};
use crate::output::OutputTarget;
use crate::paths;
use crate::session::{job_of, Job, Phase};

verus! {

/// Whether the messages are exactly the given texts.
pub open spec fn says(messages: Seq<String>, texts: Seq<Seq<char>>) -> bool {
    &&& messages.len() == texts.len()
    &&& forall|i: int| 0 <= i < texts.len() ==> #[trigger] messages[i]@ == texts[i]
}

/// Whether the message is the given text, if there has to be one, and else none.
pub open spec fn says_if(message: Option<String>, due: bool, text: Seq<char>) -> bool {
    &&& message is Some <==> due
    &&& message is Some ==> message->0@ == text
}

/// Information is suppressed by the wish for quiet alone, and details are told on
/// the wish for them alone; what is told is unchanged.
pub proof fn law_verbosity_decides(
    cli: &Cli,
    message: String,
    info: Option<String>,
    detail: Option<String>,
)
    requires
        call_ensures(log_info, (cli, message), info),
        call_ensures(log_verbose, (cli, message), detail),
    ensures
        info is None <==> cli.quiet,
        info is Some ==> info->0 == message,
        detail is Some <==> cli.verbose,
        detail is Some ==> detail->0 == message,
{
}

/// What is told before a web address without an index is read: that its reads are
/// made sequential, where the user did not choose, and that several threads take
/// memory, where the reads are sequential. Of every other input nothing is told.
pub proof fn law_startup_warns_of_web_addresses(
    cli: &Cli,
    kind: &InputKind,
    available: Option<usize>,
    workers: u32,
    mode: IoReadModeArg,
    r: Vec<String>,
)
    requires
        call_ensures(startup_notices, (cli, kind, available), r),
        call_ensures(resolved_parallelism, (cli.parallelism, available), workers),
        call_ensures(resolve_io_read_mode, (cli, kind), mode),
    ensures
        ({
            let web = *kind is Url && cli.import_index is None;
            let forced = web && cli.io_read_mode is Auto;
            let hungry = web && mode is Sequential && workers > 1;
            let first =
                ">> URL input without an imported index uses sequential buffered reads to avoid redundant HTTP range requests."@;
            let second = ">> Warning: sequential URL decoding with parallelism "@ + decimal::text(
                workers as nat,
            )
                + " retains more compressed input in memory for correctness. Memory usage may be significant; prefer -P 1 or import an index if needed."@;
            &&& cli.quiet || !web ==> says(r@, Seq::empty())
            &&& !cli.quiet && forced && hungry ==> says(r@, seq![first, second])
            &&& !cli.quiet && forced && !hungry ==> says(r@, seq![first])
            &&& !cli.quiet && !forced && hungry ==> says(r@, seq![second])
            &&& !cli.quiet && !forced && !hungry ==> says(r@, Seq::empty())
        }),
{
    let texts = notices::texts(r@);
    assert(texts == notices::startup_texts(*cli, *kind, workers as nat));
    assert(texts.len() == r@.len());
    assert forall|i: int| 0 <= i < r@.len() implies #[trigger] r@[i]@ == texts[i] by {}
    let (first, second) = (notices::forced_sequential_text(), notices::memory_text(workers as nat));
    assert(seq![first] + seq![second] =~= seq![first, second]);
    assert(seq![first] + Seq::empty() =~= seq![first]);
    assert(Seq::empty() + seq![second] =~= seq![second]);
}

/// The name of a read mode, as programmers write it.
pub open spec fn mode_word(mode: IoReadModeArg) -> Seq<char> {
    match mode {
        IoReadModeArg::Auto => "Auto"@,
        IoReadModeArg::Sequential => "Sequential"@,
        IoReadModeArg::Pread => "Pread"@,
        IoReadModeArg::LockedReadAndSeek => "LockedReadAndSeek"@,
    }
}

/// The name of a mode of keeping the index, as programmers write it.
pub open spec fn keep_word(mode: KeepIndexMode) -> Seq<char> {
    match mode {
        KeepIndexMode::Auto => "Auto"@,
        KeepIndexMode::On => "On"@,
        KeepIndexMode::Off => "Off"@,
    }
}

/// The set-up of the native reader is told in all its parts, on the wish for
/// details.
pub proof fn law_set_up_is_told(
    cli: &Cli,
    kind: &InputKind,
    mode: IoReadModeArg,
    r: Option<String>,
)
    requires
        call_ensures(config_notice, (cli, kind), r),
        call_ensures(resolve_io_read_mode, (cli, kind), mode),
    ensures
        says_if(
            r,
            cli.verbose,
            ">> Builder config: parallelism="@ + decimal::text(cli.parallelism as nat)
                + ", chunk_size="@ + decimal::text(cli.chunk_size as nat)
                + ", requested_io_read_mode="@ + mode_word(cli.io_read_mode)
                + ", effective_io_read_mode="@ + mode_word(mode) + ", keep_index="@ + keep_word(
                cli.keep_index,
            ),
        ),
{
}

/// The opening of an input, and that it failed, is told with the input.
pub proof fn law_opening_is_told(
    cli: &Cli,
    kind: &InputKind,
    opening: Option<String>,
    failure: String,
)
    requires
        call_ensures(opening_notice, (cli, kind), opening),
        call_ensures(open_failure, (cli, kind), failure),
    ensures
        *kind is Stdin ==> says_if(
            opening,
            !cli.quiet,
            ">> Spooling standard input into a temporary file for seekable decompression..."@,
        ),
        *kind is Url ==> says_if(opening, !cli.quiet, ">> Opening URL: "@ + cli.input@),
        *kind is LocalPath ==> says_if(opening, !cli.quiet, ">> Opening file: "@ + cli.input@),
        *kind is Stdin ==> failure@ == "Failed to open spooled standard input in rapidgzip"@,
        *kind is Url ==> failure@ == "Failed to open HTTP reader in rapidgzip"@,
        *kind is LocalPath ==> failure@ == "Failed to open input file: "@ + cli.input@,
{
}

/// The paths of a run are told: that of the output on the wish for details, and
/// those of the indexes unless quiet is wanted.
pub proof fn law_paths_are_told(
    cli: &Cli,
    target: &OutputTarget,
    output: Option<String>,
    import: Option<String>,
    export: Option<String>,
)
    requires
        call_ensures(output_notice, (cli, target), output),
        call_ensures(import_notice, (cli,), import),
        call_ensures(export_notice, (cli,), export),
    ensures
        says_if(
            output,
            cli.verbose && *target is File,
            ">> Output file: "@ + paths::path_display((*target)->File_0),
        ),
        says_if(
            import,
            !cli.quiet && cli.import_index is Some,
            ">> Importing index from "@ + paths::path_debug(cli.import_index->0),
        ),
        says_if(
            export,
            !cli.quiet && cli.export_index is Some,
            ">> Exporting index to "@ + paths::path_debug(cli.export_index->0),
        ),
{
}

/// Options without effect are told on the wish for details, in their order.
pub proof fn law_options_without_effect_are_told(cli: &Cli, r: Vec<String>)
    requires
        call_ensures(compatibility_notices, (cli,), r),
    ensures
        ({
            let first =
                ">> --decompress accepted for compatibility; rapidgzip-rs-cli only supports decompression"@;
            let second =
                ">> --keep accepted for compatibility; rapidgzip-rs-cli never deletes the input file"@;
            &&& !cli.verbose || (!cli.decompress && !cli.keep) ==> says(r@, Seq::empty())
            &&& cli.verbose && cli.decompress && cli.keep ==> says(r@, seq![first, second])
            &&& cli.verbose && cli.decompress && !cli.keep ==> says(r@, seq![first])
            &&& cli.verbose && !cli.decompress && cli.keep ==> says(r@, seq![second])
        }),
{
    let texts = notices::texts(r@);
    assert forall|i: int| 0 <= i < r@.len() implies #[trigger] r@[i]@ == texts[i] by {}
}

/// The start of the decompression and its cancelling are told unless quiet is
/// wanted; a run that counts tells nothing but its number.
pub proof fn law_work_is_told(
    cli: &Cli,
    job: Job,
    started: Option<String>,
    cancelled: Option<String>,
)
    requires
        call_ensures(job_notice, (cli, job), started),
        call_ensures(cancelled_notice, (cli,), cancelled),
    ensures
        job is CountBytes || job is CountLines ==> started is None,
        job is Decompress ==> says_if(started, !cli.quiet, ">> Decompressing..."@),
        job is Benchmark ==> says_if(
            started,
            !cli.quiet,
            ">> Decompressing (benchmark-only mode: data will be discarded)..."@,
        ),
        says_if(
            cancelled,
            !cli.quiet,
            ">> Operation cancelled. Temporary output will be discarded."@,
        ),
{
}

/// The text of a message as a sequence of none or one.
pub open spec fn told(message: Option<String>) -> Seq<Seq<char>> {
    if message is Some {
        seq![message->0@]
    } else {
        Seq::empty()
    }
}

/// The texts of some messages.
pub open spec fn told_all(messages: Seq<String>) -> Seq<Seq<char>> {
    Seq::new(messages.len(), |i: int| messages[i]@)
}

/// At each step of a run exactly the messages come that are due there, in their
/// order: at the opening what concerns the input, then the import, then what
/// concerns the output before anything is done to it, then the start of the
/// work, and at the end its cancelling or the export.
pub proof fn law_messages_come_at_their_steps(
    cli: &Cli,
    kind: &InputKind,
    target: &OutputTarget,
    available: Option<usize>,
    earlier: Phase,
    now: Phase,
    r: Vec<String>,
    startup: Vec<String>,
    config: Option<String>,
    opening: Option<String>,
    import: Option<String>,
    compatibility: Vec<String>,
    output: Option<String>,
    job: Job,
    started: Option<String>,
    cancelled: Option<String>,
    export: Option<String>,
)
    requires
        call_ensures(step_notices, (cli, kind, target, available, earlier, now), r),
        call_ensures(startup_notices, (cli, kind, available), startup),
        call_ensures(config_notice, (cli, kind), config),
        call_ensures(opening_notice, (cli, kind), opening),
        call_ensures(import_notice, (cli,), import),
        call_ensures(compatibility_notices, (cli,), compatibility),
        call_ensures(output_notice, (cli, target), output),
        call_ensures(job_of, (cli,), job),
        call_ensures(job_notice, (cli, job), started),
        call_ensures(cancelled_notice, (cli,), cancelled),
        call_ensures(export_notice, (cli,), export),
    ensures
        ({
            let unready = earlier is Start || earlier is Open || earlier is ImportIndex;
            let ready = told_all(compatibility@) + told(output);
            let busy = earlier is Read || earlier is Report;
            &&& earlier is Start && now is Open ==> told_all(r@) =~= told_all(startup@) + told(config) + told(opening)
            &&& earlier is Open && now is ImportIndex ==> told_all(r@) =~= told(import)
            &&& unready && now is PrepareOutput ==> told_all(r@) =~= ready
            &&& unready && (now is Read || now is Report || now is FinalizeOutput
                || now is Summarize || now is Finish) ==> told_all(r@) =~= ready + told(
                started,
            )
            &&& unready && now is Abort ==> told_all(r@) =~= ready + told(started) + told(
                cancelled,
            )
            &&& unready && now is ExportIndex ==> told_all(r@) =~= ready + told(started)
                + told(export)
            &&& earlier is PrepareOutput && (now is Read || now is Report
                || now is FinalizeOutput) ==> told_all(r@) =~= told(started)
            &&& earlier is PrepareOutput && now is Abort ==> told_all(r@) =~= told(started)
                + told(cancelled)
            &&& busy && (now is Read || now is Report || now is FinalizeOutput
                || now is Summarize || now is Finish) ==> told_all(r@) =~= Seq::empty()
            &&& busy && now is Abort ==> told_all(r@) =~= told(cancelled)
            &&& (busy || earlier is FinalizeOutput || earlier is Summarize) && now is ExportIndex
                ==> told_all(r@) =~= told(export)
            &&& (earlier is FinalizeOutput || earlier is Summarize || earlier is ExportIndex) && (
            now is Summarize || now is Finish) ==> told_all(r@) =~= Seq::empty()
        }),
{
    assert(told_all(r@) =~= notices::texts(r@));
    assert(told_all(startup@) =~= notices::texts(startup@));
    assert(told_all(compatibility@) =~= notices::texts(compatibility@));
}

} // verus!

//! What every call that decides on the output gives.

use std::path::PathBuf;
use vstd::prelude::*;

use crate::cli::Cli;
use crate::input::InputKind;
use crate::output;
use crate::output::{
    derive_output_name, finalize_failure, finalize_output_file, infer_output_path, prepare_failure,
    prepare_output_file, resolve_output_target, FinalizeStep, OutputError, OutputTarget,
    TempFileSpec,
};
use crate::paths;

verus! {

/// Whether the command line only counts or measures the data.
pub open spec fn only_counts(cli: Cli) -> bool {
    cli.count || cli.count_lines || cli.benchmark_only
}

/// For every kind of input: data that is only counted or measured goes nowhere;
/// else it goes to standard output exactly if that is asked for, and else into
/// the file that is asked for. Without a choice of the user only a local file has
/// an output, which is the file that is inferred from it; where none is, and for
/// every other input, there is an error.
pub proof fn law_output_goes_where_the_user_sends_it(
    cli: &Cli,
    kind: &InputKind,
    inferred: Result<PathBuf, OutputError>,
    r: Result<OutputTarget, OutputError>,
)
    requires
        call_ensures(resolve_output_target, (cli, kind), r),
        *kind is LocalPath ==> call_ensures(
            infer_output_path,
            (&(*kind)->LocalPath_0,),
            inferred,
        ),
    ensures
        r is Ok && r->Ok_0 is Discard <==> only_counts(*cli),
        r is Ok && r->Ok_0 is Stdout <==> !only_counts(*cli) && cli.stdout,
        !only_counts(*cli) && !cli.stdout && cli.output is Some ==> r == Ok::<
            OutputTarget,
            OutputError,
        >(OutputTarget::File(cli.output->0)),
        !only_counts(*cli) && !cli.stdout && cli.output is None ==> {
            &&& *kind is LocalPath && inferred is Ok ==> r == Ok::<OutputTarget, OutputError>(
                OutputTarget::File(inferred->Ok_0),
            )
            &&& *kind is LocalPath && inferred is Err ==> r is Err && r->Err_0 is Underivable
            &&& !(*kind is LocalPath) ==> r is Err && r->Err_0 is NoDefaultPath
        },
{
}

/// An output name is derived exactly if the name of the input is made of it and of
/// one of the extensions for gzip data; it is never empty.
pub proof fn law_derived_names_are_stems(
    name: Option<&str>,
    stem: Seq<char>,
    r: Result<&str, OutputError>,
)
    requires
        call_ensures(derive_output_name, (name,), r),
    ensures
        r is Ok ==> {
            &&& name is Some
            &&& r->Ok_0@.len() > 0
            &&& name->0@ == r->Ok_0@ + ".gz"@ || name->0@ == r->Ok_0@ + ".bgz"@
        },
        name is Some && stem.len() > 0 && (name->0@ == stem + ".gz"@ || name->0@ == stem + ".bgz"@)
            ==> r is Ok && r->Ok_0@ == stem,
        r is Err ==> r->Err_0 is Underivable,
{
    if name is Some {
        output::law_output_name_is_the_stem(name->0@, stem);
        if r is Ok {
            output::law_output_name_is_the_stem(name->0@, r->Ok_0@);
        }
    }
}

/// The inferred output lies in the directory of the input, under its name without
/// the extension for gzip data. Without such a name there is none.
pub proof fn law_inferred_output_lies_beside_the_input(
    path: &PathBuf,
    stem: Seq<char>,
    r: Result<PathBuf, OutputError>,
)
    requires
        call_ensures(infer_output_path, (path,), r),
    ensures
        ({
            let name = paths::path_file_name(*path);
            let parent = paths::path_parent(*path);
            &&& name is None ==> r is Err
            &&& stem.len() > 0 && (name == Some(stem + ".gz"@) || name == Some(stem + ".bgz"@))
                ==> {
                &&& r is Ok
                &&& parent is Some
                &&& r->Ok_0 == paths::path_join(parent->0, stem)
            }
            &&& r is Ok ==> exists|s: Seq<char>|
                s.len() > 0 && (name == Some(s + ".gz"@) || name == Some(#[trigger] (s
                    + ".bgz"@)))
            &&& r is Err ==> r->Err_0 is Underivable
            &&& r is Ok ==> r->Ok_0 != *path
        }),
{
    if let Some(name) = paths::path_file_name(*path) {
        output::law_output_name_is_the_stem(name, stem);
        if r is Ok {
            let s = output::output_name_for(name)->0;
            output::law_output_name_is_the_stem(name, s);
            assert(s + ".bgz"@ == s + ".bgz"@);
        }
    }
}

/// An output file is refused exactly if it exists and may not be overwritten. A
/// file that is prepared is written under a temporary name in the directory of
/// the output, which is the current one where the path has none.
pub proof fn law_existing_output_is_overwritten_on_request_only(
    path: &PathBuf,
    force: bool,
    exists: bool,
    r: Result<TempFileSpec, OutputError>,
)
    requires
        call_ensures(prepare_output_file, (path, force, exists), r),
    ensures
        r is Err <==> exists && !force,
        r is Err ==> r->Err_0 == OutputError::AlreadyExists(*path),
        r is Ok ==> {
            &&& paths::path_parent(*path) is Some ==> r->Ok_0.directory == paths::path_parent(
                *path,
            )->0
            &&& paths::path_parent(*path) is None ==> r->Ok_0.directory == paths::text_path("."@)
            &&& r->Ok_0.prefix@ == ".rapidgzip-rs-cli."@
            &&& r->Ok_0.suffix@ == ".tmp"@
        },
{
}

/// An output file is finished only once it has been moved into place, and that
/// comes only behind its writing out to the disk. A file in the way is removed
/// between the two exactly if it exists and may be overwritten.
pub proof fn law_output_is_moved_into_place(
    step: FinalizeStep,
    force: bool,
    exists: bool,
    r: FinalizeStep,
)
    requires
        call_ensures(finalize_output_file, (step, force, exists), r),
    ensures
        r is Done ==> step is Persist || step is Done,
        r is Persist ==> step is Sync || step is Remove,
        r is Remove ==> step is Sync && force && exists,
        !(r is Sync),
        step is Sync && force && exists ==> r is Remove,
{
}

/// From the writing out on, an output file takes two or three steps to be
/// finished, whatever is found on the way, and is moved into place exactly once.
pub proof fn law_finalizing_ends(
    force: bool,
    exists: Seq<bool>,
    second: FinalizeStep,
    third: FinalizeStep,
    fourth: FinalizeStep,
)
    requires
        exists.len() == 3,
        call_ensures(finalize_output_file, (FinalizeStep::Sync, force, exists[0]), second),
        call_ensures(finalize_output_file, (second, force, exists[1]), third),
        call_ensures(finalize_output_file, (third, force, exists[2]), fourth),
    ensures
        fourth is Done,
        second is Persist && third is Done || second is Remove && third is Persist,
{
}

/// What fails on the way of an output file is told with its path.
pub proof fn law_output_failures_name_the_path(
    path: &PathBuf,
    step: FinalizeStep,
    prepared: String,
    finalized: String,
    error: &OutputError,
    message: String,
)
    requires
        call_ensures(prepare_failure, (path,), prepared),
        call_ensures(finalize_failure, (step, path), finalized),
        call_ensures(OutputError::message, (error,), message),
    ensures
        prepared@ == "Failed to create temporary output file next to "@ + paths::path_display(
            *path,
        ),
        step is Sync ==> finalized@ == "Failed to flush temporary output file before finalizing "@
            + paths::path_display(*path),
        step is Remove ==> finalized@ == "Failed to replace existing output file: "@
            + paths::path_display(*path),
        step is Persist ==> finalized@ == "Failed to move temporary output file into place: "@
            + paths::path_display(*path),
        message@ == match *error {
            OutputError::Underivable =>
                "Could not derive output path from input name. Pass --output <PATH> or --stdout"@,
            OutputError::NoDefaultPath =>
                "This input has no safe default output path. Pass --output <PATH> or --stdout"@,
            OutputError::AlreadyExists(taken) => "Output file already exists: "@
                + paths::path_display(taken) + ". Pass --force to overwrite it"@,
        },
{
}

} // verus!

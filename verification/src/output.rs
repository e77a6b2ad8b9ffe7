//! Where the decompressed data goes, and how an output file comes into being.

use std::path::PathBuf;
use vstd::prelude::*;

use crate::cli::Cli;
use crate::input::InputKind;
use crate::paths;
use crate::paths::{display, file_name, parent, path_from_text, with_file_name};
use crate::text;
use crate::text::strip_suffix;

verus! {

/// Where the decompressed data goes.
#[derive(Debug)]
pub enum OutputTarget {
    /// To standard output.
    Stdout,
    /// Into a file.
    File(PathBuf),
    /// Nowhere.
    Discard,
}

/// Why there is no place for the output.
#[derive(Debug)]
pub enum OutputError {
    /// No output name follows from the name of the input.
    Underivable,
    /// The input is none that an output name is inferred from.
    NoDefaultPath,
    /// The output file exists and must not be overwritten.
    AlreadyExists(PathBuf),
}

impl OutputError {
    /// What is said of the error.
    pub open spec fn text(self) -> Seq<char> {
        match self {
            OutputError::Underivable =>
                "Could not derive output path from input name. Pass --output <PATH> or --stdout"@,
            OutputError::NoDefaultPath =>
                "This input has no safe default output path. Pass --output <PATH> or --stdout"@,
            OutputError::AlreadyExists(path) => "Output file already exists: "@
                + paths::path_display(path) + ". Pass --force to overwrite it"@,
        }
    }

    /// The message for the user.
    pub fn message(&self) -> (r: String)
        ensures
            r@ == self.text(),
    {
        let mut message = String::new();
        match self {
            OutputError::Underivable => {
                message.append(
                    "Could not derive output path from input name. Pass --output <PATH> or --stdout",
                );
            },
            OutputError::NoDefaultPath => {
                message.append(
                    "This input has no safe default output path. Pass --output <PATH> or --stdout",
                );
            },
            OutputError::AlreadyExists(path) => {
                message.append("Output file already exists: ");
                message.append(display(path).as_str());
                message.append(". Pass --force to overwrite it");
            },
        }
        message
    }
}

/// The output name that follows from the name of an input file: the name without
/// its extension for gzip data, if it has one and more than that.
pub open spec fn output_name_for(name: Seq<char>) -> Option<Seq<char>> {
    let stripped = match text::without_suffix(name, ".gz"@) {
        Some(stem) => Some(stem),
        None => text::without_suffix(name, ".bgz"@),
    };
    match stripped {
        Some(stem) => if stem.len() > 0 {
            Some(stem)
        } else {
            None
        },
        None => None,
    }
}

/// The output name that follows from the name of an input file, if that is known
/// and one does.
pub open spec fn output_name_of(name: Option<Seq<char>>) -> Option<Seq<char>> {
    match name {
        Some(name) => output_name_for(name),
        None => None,
    }
}

/// Derives the output name from the name of an input file, if that is known.
pub fn derive_output_name<'a>(name: Option<&'a str>) -> (r: Result<&'a str, OutputError>)
    ensures
        r is Ok <==> output_name_of(text::view_of(name)) is Some,
        r matches Ok(stem) ==> output_name_of(text::view_of(name)) == Some(stem@),
        r is Err ==> r->Err_0 is Underivable,
{
    let name: &'a str = match name {
        Some(name) => name,
        None => return Err(OutputError::Underivable),
    };
    let stripped: &'a str = match strip_suffix(name, ".gz") {
        Some(stem) => stem,
        None => match strip_suffix(name, ".bgz") {
            Some(stem) => stem,
            None => return Err(OutputError::Underivable),
        },
    };
    if stripped.is_empty() {
        return Err(OutputError::Underivable);
    }
    Ok(stripped)
}

/// The output path that follows from the path of an input file, if one does: the
/// derived name in the same directory.
pub open spec fn output_path_for(path: PathBuf) -> Option<PathBuf> {
    match output_name_of(paths::path_file_name(path)) {
        Some(name) => paths::sibling(path, name),
        None => None,
    }
}

/// Whether `path` leads to the file `stem` in `directory` with `extension` behind
/// its name, where both are single file names on this machine.
pub open spec fn is_extended(
    path: PathBuf,
    directory: PathBuf,
    stem: Seq<char>,
    extension: Seq<char>,
) -> bool {
    &&& path == paths::path_join(directory, stem + extension)
    &&& paths::is_file_name(stem)
    &&& paths::is_plain_name(stem) || paths::is_file_name(stem + extension)
}

/// Infers the output path from the path of an input file: the derived name in
/// the same directory. It undoes the adding of either extension to the name of a
/// file in any directory, and never leads to the input file itself. Where the
/// path is nothing but a name, the derived name is all of the result.
pub fn infer_output_path(path: &PathBuf) -> (r: Result<PathBuf, OutputError>)
    ensures
        r is Ok <==> output_name_of(paths::path_file_name(*path)) is Some,
        r is Ok <==> output_path_for(*path) is Some,
        r matches Ok(out) ==> {
            let name = output_name_of(paths::path_file_name(*path))->0;
            &&& output_path_for(*path) == Some(out)
            &&& paths::is_file_name(name) ==> paths::path_file_name(out) == Some(name)
                && paths::path_parent(out) == paths::path_parent(*path)
            &&& paths::is_file_name(name) && paths::path_text(*path) == paths::path_file_name(
                *path,
            ) ==> paths::path_text(out) == Some(name) && out == paths::text_path(name)
            &&& !paths::same_path(out, *path)
        },
        forall|directory: PathBuf, stem: Seq<char>|
            #![trigger paths::path_join(directory, stem + ".gz"@)]
            #![trigger paths::path_join(directory, stem + ".bgz"@)]
            is_extended(*path, directory, stem, ".gz"@) || is_extended(
                *path,
                directory,
                stem,
                ".bgz"@,
            ) ==> r is Ok && paths::same_path(r->Ok_0, paths::path_join(directory, stem)),
        r is Err ==> r->Err_0 is Underivable,
{
    proof {
        assert forall|directory: PathBuf, stem: Seq<char>, extension: Seq<char>|
            #[trigger] is_extended(*path, directory, stem, extension) && (extension == ".gz"@
                || extension == ".bgz"@) implies paths::is_file_name(stem + extension)
            && output_name_for(stem + extension) == Some(stem) by {
            if paths::is_plain_name(stem) {
                lemma_extended_name_is_plain(stem);
            }
            law_output_name_is_the_stem(stem + extension, stem);
        }
    }
    let old_name: Option<&str> = file_name(path);
    match derive_output_name(old_name) {
        Ok(name) => {
            proof {
                law_output_name_is_the_stem(paths::path_file_name(*path)->0, name@);
            }
            Ok(with_file_name(path, name))
        },
        Err(error) => Err(error),
    }
}

/// A single file name stays one with an extension for gzip data behind it.
proof fn lemma_extended_name_is_plain(stem: Seq<char>)
    requires
        paths::is_plain_name(stem),
    ensures
        paths::is_plain_name(stem + ".gz"@),
        paths::is_plain_name(stem + ".bgz"@),
{
    reveal_strlit(".gz");
    reveal_strlit(".bgz");
    reveal_strlit(".");
    reveal_strlit("..");
    let (gz, bgz) = (".gz"@, ".bgz"@);
    assert(gz =~= seq!['.', 'g', 'z']);
    assert(bgz =~= seq!['.', 'b', 'g', 'z']);
    assert forall|c: char| !stem.contains(c) && !gz.contains(c) implies !(stem + gz).contains(c) by {
        assert forall|i: int| 0 <= i < (stem + gz).len() implies (stem + gz)[i] != c by {
            if i < stem.len() {
                assert(stem.contains(stem[i]));
            } else {
                assert(gz.contains(gz[i - stem.len()]));
            }
        }
    }
    assert forall|c: char| !stem.contains(c) && !bgz.contains(c) implies !(stem + bgz).contains(
        c,
    ) by {
        assert forall|i: int| 0 <= i < (stem + bgz).len() implies (stem + bgz)[i] != c by {
            if i < stem.len() {
                assert(stem.contains(stem[i]));
            } else {
                assert(bgz.contains(bgz[i - stem.len()]));
            }
        }
    }
}

/// Whether the decompressed data is only counted or measured.
pub open spec fn discards_data(cli: Cli) -> bool {
    cli.count || cli.count_lines || cli.benchmark_only
}

/// Where the output goes, or why it has no place.
pub open spec fn output_target(cli: Cli, kind: InputKind) -> Result<OutputTarget, OutputError> {
    if discards_data(cli) {
        Ok(OutputTarget::Discard)
    } else if cli.stdout {
        Ok(OutputTarget::Stdout)
    } else if cli.output is Some {
        Ok(OutputTarget::File(cli.output->0))
    } else if kind is LocalPath {
        match output_path_for(kind->LocalPath_0) {
            Some(path) => Ok(OutputTarget::File(path)),
            None => Err(OutputError::Underivable),
        }
    } else {
        Err(OutputError::NoDefaultPath)
    }
}

/// Decides where the output goes.
pub fn resolve_output_target(cli: &Cli, input_kind: &InputKind) -> (r: Result<
    OutputTarget,
    OutputError,
>)
    ensures
        r == output_target(*cli, *input_kind),
{
    if cli.count || cli.count_lines || cli.benchmark_only {
        return Ok(OutputTarget::Discard);
    }
    if cli.stdout {
        return Ok(OutputTarget::Stdout);
    }
    if let Some(path) = &cli.output {
        return Ok(OutputTarget::File(path.clone()));
    }
    match input_kind {
        InputKind::LocalPath(path) => match infer_output_path(path) {
            Ok(out) => Ok(OutputTarget::File(out)),
            Err(_) => Err(OutputError::Underivable),
        },
        _ => Err(OutputError::NoDefaultPath),
    }
}

/// A temporary file that is to become the output file.
#[derive(Debug)]
pub struct TempFileSpec {
    /// The directory to create it in.
    pub directory: PathBuf,
    /// What its name starts with.
    pub prefix: String,
    /// What its name ends in.
    pub suffix: String,
}

/// The directory of the temporary file for an output path: that of the output
/// path, so that the file can be moved into place.
pub open spec fn temp_directory(path: PathBuf) -> PathBuf {
    match paths::path_parent(path) {
        Some(directory) => directory,
        None => paths::text_path("."@),
    }
}

/// Prepares an output file: refuses one that exists unless it may be
/// overwritten, and describes the temporary file to write to.
pub fn prepare_output_file(path: &PathBuf, force: bool, exists: bool) -> (r: Result<
    TempFileSpec,
    OutputError,
>)
    ensures
        r is Ok <==> force || !exists,
        r is Err ==> r->Err_0 == OutputError::AlreadyExists(*path),
        r matches Ok(temp) ==> {
            &&& temp.directory == temp_directory(*path)
            &&& temp.prefix@ == ".rapidgzip-rs-cli."@
            &&& temp.suffix@ == ".tmp"@
        },
{
    if !force && exists {
        return Err(OutputError::AlreadyExists(path.clone()));
    }
    let directory: PathBuf = match parent(path) {
        Some(directory) => directory,
        None => path_from_text("."),
    };
    Ok(
        TempFileSpec {
            directory,
            prefix: ".rapidgzip-rs-cli.".to_owned(),
            suffix: ".tmp".to_owned(),
        },
    )
}

/// What remains to be done to put a finished output file into place.
#[derive(Copy, Clone, Debug, PartialEq, Eq, Structural)]
pub enum FinalizeStep {
    /// Write the temporary file out to the disk.
    Sync,
    /// Remove the file that is in the way.
    Remove,
    /// Move the temporary file to the output path.
    Persist,
    /// Nothing.
    Done,
}

/// What is to be done after a step, where `exists` says whether there is a file
/// at the output path.
pub open spec fn step_after(step: FinalizeStep, force: bool, exists: bool) -> FinalizeStep {
    match step {
        FinalizeStep::Sync => if force && exists {
            FinalizeStep::Remove
        } else {
            FinalizeStep::Persist
        },
        FinalizeStep::Remove => FinalizeStep::Persist,
        FinalizeStep::Persist => FinalizeStep::Done,
        FinalizeStep::Done => FinalizeStep::Done,
    }
}

/// What is to be done after `step`, where `exists` says whether there is a file
/// at the output path: a file that may be overwritten is removed once the new
/// one is safe on the disk.
pub fn finalize_output_file(step: FinalizeStep, force: bool, exists: bool) -> (r: FinalizeStep)
    ensures
        r == step_after(step, force, exists),
{
    match step {
        FinalizeStep::Sync => {
            if force && exists {
                FinalizeStep::Remove
            } else {
                FinalizeStep::Persist
            }
        },
        FinalizeStep::Remove => FinalizeStep::Persist,
        FinalizeStep::Persist => FinalizeStep::Done,
        FinalizeStep::Done => FinalizeStep::Done,
    }
}

/// What is said of a temporary file that could not be created.
pub open spec fn prepare_failure_text(path: PathBuf) -> Seq<char> {
    "Failed to create temporary output file next to "@ + paths::path_display(path)
}

/// The message for a temporary file that could not be created for the given
/// output path.
pub fn prepare_failure(path: &PathBuf) -> (r: String)
    ensures
        r@ == prepare_failure_text(*path),
{
    let mut message = String::new();
    message.append("Failed to create temporary output file next to ");
    message.append(display(path).as_str());
    message
}

/// What is said of a step that failed on the way of an output file into place.
pub open spec fn finalize_failure_text(step: FinalizeStep, path: PathBuf) -> Seq<char> {
    let what = match step {
        FinalizeStep::Sync => "Failed to flush temporary output file before finalizing "@,
        FinalizeStep::Remove => "Failed to replace existing output file: "@,
        _ => "Failed to move temporary output file into place: "@,
    };
    what + paths::path_display(path)
}

/// The message for a step that failed on the way of the output file at `path`
/// into place.
pub fn finalize_failure(step: FinalizeStep, path: &PathBuf) -> (r: String)
    ensures
        r@ == finalize_failure_text(step, *path),
{
    let mut message = String::new();
    match step {
        FinalizeStep::Sync => {
            message.append("Failed to flush temporary output file before finalizing ");
        },
        FinalizeStep::Remove => {
            message.append("Failed to replace existing output file: ");
        },
        _ => {
            message.append("Failed to move temporary output file into place: ");
        },
    }
    message.append(display(path).as_str());
    message
}

/// An output name is derived exactly where the input is named after it: with one
/// of the two extensions behind a name that is not empty. The derived name is
/// never that of the input.
pub proof fn law_output_name_is_the_stem(name: Seq<char>, stem: Seq<char>)
    ensures
        output_name_for(name) == Some(stem) <==> {
            &&& stem.len() > 0
            &&& name == stem + ".gz"@ || name == stem + ".bgz"@
        },
        output_name_for(name) == Some(stem) ==> stem != name,
{
    reveal_strlit(".gz");
    reveal_strlit(".bgz");
    let (gz, bgz) = (".gz"@, ".bgz"@);
    if name == stem + gz {
        assert(name.skip(name.len() - gz.len()) =~= gz);
        assert(name.take(name.len() - gz.len()) =~= stem);
    }
    if name == stem + bgz {
        assert(name.skip(name.len() - bgz.len()) =~= bgz);
        assert(name.take(name.len() - bgz.len()) =~= stem);
        assert(name.skip(name.len() - gz.len())[0] == 'b');
        assert(gz[0] == '.');
    }
    if name.len() >= gz.len() && name.skip(name.len() - gz.len()) == gz {
        assert(name =~= name.take(name.len() - gz.len()) + gz);
    }
    if name.len() >= bgz.len() && name.skip(name.len() - bgz.len()) == bgz {
        assert(name =~= name.take(name.len() - bgz.len()) + bgz);
    }
}

/// A file that is in the way is removed only where it may be overwritten, and
/// only once the new one is written out to the disk.
pub proof fn law_removal_needs_force_and_sync(step: FinalizeStep, force: bool, exists: bool)
    ensures
        step_after(step, force, exists) == FinalizeStep::Remove <==> {
            &&& step == FinalizeStep::Sync
            &&& force
            &&& exists
        },
        step_after(step, force, exists) == FinalizeStep::Persist ==> step == FinalizeStep::Sync
            || step == FinalizeStep::Remove,
{
}

/// Standard input and web addresses never get an output file by default: without
/// a choice of the user they are refused.
pub proof fn law_no_default_for_streams(cli: Cli, kind: InputKind)
    requires
        kind is Url || kind is Stdin,
    ensures
        output_target(cli, kind) is Err <==> {
            &&& !discards_data(cli)
            &&& !cli.stdout
            &&& cli.output is None
        },
        output_target(cli, kind) is Err ==> output_target(cli, kind)->Err_0 is NoDefaultPath,
        output_target(cli, kind) == Ok::<OutputTarget, OutputError>(
            OutputTarget::File(cli.output->0),
        ) || !(output_target(cli, kind) is Ok && output_target(cli, kind)->Ok_0 is File),
{
}

/// Counting and measuring write no output, whatever else is asked for.
pub proof fn law_counting_writes_nothing(cli: Cli, kind: InputKind)
    ensures
        discards_data(cli) <==> output_target(cli, kind) == Ok::<OutputTarget, OutputError>(
            OutputTarget::Discard,
        ),
{
}

} // verus!

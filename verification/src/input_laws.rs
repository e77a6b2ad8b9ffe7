//! What every call that decides on the input and on the way of reading it gives.

use std::path::PathBuf;
use vstd::prelude::*;

use crate::cli::{Cli, IoReadModeArg};
use crate::input;
use crate::input::{
    classify_by_scheme, classify_input, index_source, resolve_io_read_mode, resolved_parallelism,
    should_force_sequential_for_url_no_index, IndexSource, InputKind,
};
use crate::paths;

verus! {

/// A dash is standard input; else a web address is one, and everything else is
/// the local file of that path.
pub proof fn law_inputs_are_told_apart(input: &str, r: InputKind)
    requires
        call_ensures(classify_input, (input,), r),
    ensures
        r is Stdin <==> input@ == "-"@,
        r is Url <==> {
            &&& input@ != "-"@
            &&& input::url_scheme(input@) == Some("http"@) || input::url_scheme(input@) == Some(
                "https"@,
            )
        },
        r is LocalPath ==> r->LocalPath_0 == paths::text_path(input@),
{
}

/// The scheme alone tells a web address from a local file; a dash has none.
pub proof fn law_schemes_tell_inputs_apart(input: &str, scheme: Option<&str>, r: InputKind)
    requires
        call_ensures(classify_by_scheme, (input, scheme), r),
    ensures
        r is Stdin <==> input@ == "-"@,
        r is Url <==> {
            &&& input@ != "-"@
            &&& scheme is Some
            &&& scheme->0@ == "http"@ || scheme->0@ == "https"@
        },
        r is LocalPath ==> r->LocalPath_0 == paths::text_path(input@),
{
}

/// An index is downloaded from its address exactly if its path is the text of a
/// web address.
pub proof fn law_indexes_come_from_the_web_or_a_file(path: &PathBuf, r: IndexSource)
    requires
        call_ensures(index_source, (path,), r),
    ensures
        r is Url <==> paths::path_text(*path) is Some && {
            let scheme = input::url_scheme(paths::path_text(*path)->0);
            scheme == Some("http"@) || scheme == Some("https"@)
        },
        r is Url ==> Some(r->Url_0@) == paths::path_text(*path),
{
}

/// As many threads are used as asked for; where none are, as many as the machine
/// has, or one where that is unknown.
pub proof fn law_threads_are_those_asked_for(requested: u32, available: Option<usize>, r: u32)
    requires
        call_ensures(resolved_parallelism, (requested, available), r),
    ensures
        requested != 0 ==> r == requested,
        requested == 0 && available is None ==> r == 1,
        requested == 0 && available is Some && available->0 <= u32::MAX ==> r == available->0,
        requested == 0 && available is Some ==> (available->0 - r) % 0x1_0000_0000 == 0,
{
}

/// A web address that is read without an index and without a mode of the user's
/// choice is read sequentially; everything else is read as the user chose.
pub proof fn law_web_addresses_are_read_sequentially(
    cli: &Cli,
    kind: &InputKind,
    forced: bool,
    mode: IoReadModeArg,
)
    requires
        call_ensures(should_force_sequential_for_url_no_index, (cli, kind), forced),
        call_ensures(resolve_io_read_mode, (cli, kind), mode),
    ensures
        forced <==> {
            &&& *kind is Url
            &&& cli.import_index is None
            &&& cli.io_read_mode is Auto
        },
        forced ==> mode is Sequential,
        !forced ==> mode == cli.io_read_mode,
{
}

} // verus!

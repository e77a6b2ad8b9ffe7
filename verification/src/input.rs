//! What the input is and how it is read.

use std::path::PathBuf;
use vstd::prelude::*;

use crate::cli::{Cli, IoReadModeArg};
use crate::paths;
use crate::paths::{path_from_text, path_to_text};
use crate::text;
use crate::text::same_text;

verus! {

/// Where the compressed data comes from.
#[derive(Debug)]
pub enum InputKind {
    /// A local file.
    LocalPath(PathBuf),
    /// A file behind an HTTP or HTTPS address.
    Url,
    /// Standard input.
    Stdin,
}

/// Where an index to import comes from.
#[derive(Debug)]
pub enum IndexSource {
    /// A local file.
    File,
    /// An HTTP or HTTPS address, which is downloaded whole.
    Url(String),
}

/// The scheme of an absolute URL, if `input` is one.
pub uninterp spec fn url_scheme(input: Seq<char>) -> Option<Seq<char>>;

/// `Url::parse` of the `url` crate and the `Url::scheme` of its result: the
/// scheme where the input is an absolute URL, which is never so without a colon
/// in it. What else makes a URL is named here and not spelled out.
#[verifier::external_body]
fn scheme_of_url(input: &str) -> (r: Option<String>)
    ensures
        r is Some <==> url_scheme(input@) is Some,
        r matches Some(scheme) ==> url_scheme(input@) == Some(scheme@),
        r is Some ==> input@.contains(':'),
{
    url::Url::parse(input).ok().map(|url| url.scheme().to_string())
}

/// Whether a scheme is one of the web.
pub open spec fn is_web_scheme(scheme: Option<Seq<char>>) -> bool {
    scheme == Some("http"@) || scheme == Some("https"@)
}

/// What an input of the given text is, where `scheme` is its scheme if it is a
/// URL.
pub open spec fn input_kind(input: Seq<char>, scheme: Option<Seq<char>>) -> InputKind {
    if input == "-"@ {
        InputKind::Stdin
    } else if is_web_scheme(scheme) {
        InputKind::Url
    } else {
        InputKind::LocalPath(paths::text_path(input))
    }
}

/// Whether a scheme is one of the web.
fn web_scheme(scheme: Option<&str>) -> (r: bool)
    ensures
        r == is_web_scheme(text::view_of(scheme)),
{
    match scheme {
        Some(name) => same_text(name, "http") || same_text(name, "https"),
        None => false,
    }
}

/// Decides what an input is, given its scheme if it is a URL.
pub fn classify_by_scheme(input: &str, scheme: Option<&str>) -> (r: InputKind)
    ensures
        r == input_kind(input@, text::view_of(scheme)),
{
    if same_text(input, "-") {
        return InputKind::Stdin;
    }
    if web_scheme(scheme) {
        return InputKind::Url;
    }
    InputKind::LocalPath(path_from_text(input))
}

/// Decides what an input is: standard input, a web address or a local file.
pub fn classify_input(input: &str) -> (r: InputKind)
    ensures
        r == input_kind(input@, url_scheme(input@)),
        !input@.contains(':') && input@ != "-"@ ==> r == InputKind::LocalPath(
            paths::text_path(input@),
        ),
{
    let scheme: Option<String> = scheme_of_url(input);
    match scheme {
        Some(name) => classify_by_scheme(input, Some(name.as_str())),
        None => classify_by_scheme(input, None),
    }
}

/// Whether an index is on the web: its path is text and a web address.
pub open spec fn is_index_url(path: PathBuf) -> bool {
    paths::path_text(path) is Some && is_web_scheme(url_scheme(paths::path_text(path)->0))
}

/// Decides where an index to import comes from: a web address or a local file.
pub fn index_source(path: &PathBuf) -> (r: IndexSource)
    ensures
        r is Url <==> is_index_url(*path),
        r matches IndexSource::Url(address) ==> paths::path_text(*path) == Some(address@),
        (paths::path_text(*path) matches Some(address) && !address.contains(':')) ==> r is File,
{
    match path_to_text(path) {
        None => IndexSource::File,
        Some(address) => match scheme_of_url(address) {
            Some(scheme) => if web_scheme(Some(scheme.as_str())) {
                IndexSource::Url(address.to_owned())
            } else {
                IndexSource::File
            },
            None => IndexSource::File,
        },
    }
}

/// The number of threads that are used: the requested one, or where none is
/// requested the available one as a 32-bit number, which is one where it is
/// unknown.
pub open spec fn effective_parallelism(requested: u32, available: Option<usize>) -> nat {
    if requested != 0 {
        requested as nat
    } else {
        match available {
            Some(n) => (n as nat) % 0x1_0000_0000,
            None => 1,
        }
    }
}

/// The number of threads that are used. `available` is the number of threads
/// that the machine runs at once, where it is known.
pub fn resolved_parallelism(requested_parallelism: u32, available: Option<usize>) -> (r: u32)
    ensures
        r == effective_parallelism(requested_parallelism, available),
{
    if requested_parallelism == 0 {
        match available {
            Some(n) => {
                let wide: u64 = n as u64;
                assert(wide as u32 == wide % 0x1_0000_0000u64) by (bit_vector);
                wide as u32
            },
            None => 1,
        }
    } else {
        requested_parallelism
    }
}

/// Whether sequential reads are forced: for a web address that is read without
/// an imported index and without a mode of the user's choice.
pub open spec fn forces_sequential(cli: Cli, kind: InputKind) -> bool {
    kind is Url && cli.import_index is None && cli.io_read_mode == IoReadModeArg::Auto
}

/// Whether sequential reads are forced for the given input.
pub fn should_force_sequential_for_url_no_index(cli: &Cli, input_kind: &InputKind) -> (r: bool)
    ensures
        r == forces_sequential(*cli, *input_kind),
{
    let web: bool = match input_kind {
        InputKind::Url => true,
        _ => false,
    };
    web && cli.import_index.is_none() && cli.io_read_mode == IoReadModeArg::Auto
}

/// The mode in which an input is read.
pub open spec fn effective_mode(cli: Cli, kind: InputKind) -> IoReadModeArg {
    if forces_sequential(cli, kind) {
        IoReadModeArg::Sequential
    } else {
        cli.io_read_mode
    }
}

/// The mode in which the given input is read.
pub fn resolve_io_read_mode(cli: &Cli, input_kind: &InputKind) -> (r: IoReadModeArg)
    ensures
        r == effective_mode(*cli, *input_kind),
{
    if should_force_sequential_for_url_no_index(cli, input_kind) {
        IoReadModeArg::Sequential
    } else {
        cli.io_read_mode
    }
}

/// A mode that the user chose is never changed, nor is any mode for an input
/// other than a web address or with an imported index.
pub proof fn law_chosen_mode_is_kept(cli: Cli, kind: InputKind)
    ensures
        cli.io_read_mode != IoReadModeArg::Auto ==> effective_mode(cli, kind) == cli.io_read_mode,
        !(kind is Url) || cli.import_index is Some ==> effective_mode(cli, kind)
            == cli.io_read_mode,
        kind is Url && cli.import_index is None ==> effective_mode(cli, kind)
            != IoReadModeArg::Auto,
{
}

} // verus!

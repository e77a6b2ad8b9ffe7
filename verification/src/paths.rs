//! File system paths, which keep the form that the operating system gives them
//! and need not be text.

use std::path::PathBuf;
use vstd::prelude::*;

use crate::text;

verus! {

/// A path of the operating system.
#[verifier::external_type_specification]
#[verifier::external_body]
pub struct ExPathBuf(std::path::PathBuf);

/// The text that a path holds, if it is text.
pub uninterp spec fn path_text(path: PathBuf) -> Option<Seq<char>>;

/// The path that a text denotes.
pub uninterp spec fn text_path(text: Seq<char>) -> PathBuf;

/// The last component of a path, if it is a name and is text.
pub uninterp spec fn path_file_name(path: PathBuf) -> Option<Seq<char>>;

/// The path that adjoins a name to a directory.
pub uninterp spec fn path_join(directory: PathBuf, name: Seq<char>) -> PathBuf;

/// The path without its last component, if it has one.
pub uninterp spec fn path_parent(path: PathBuf) -> Option<PathBuf>;

/// How a path is shown to the user.
pub uninterp spec fn path_display(path: PathBuf) -> Seq<char>;

/// How a path is quoted in a message.
pub uninterp spec fn path_debug(path: PathBuf) -> Seq<char>;

/// Whether a text is a single file name on every operating system: not empty,
/// no reference to a directory, without the characters that separate components,
/// and without the letter and colon of a drive.
pub open spec fn is_plain_name(name: Seq<char>) -> bool {
    &&& name.len() > 0
    &&& name != "."@
    &&& name != ".."@
    &&& !name.contains('/')
    &&& !name.contains('\\')
    &&& name.len() > 1 ==> name[1] != ':'
}

/// Whether a text is a single file name on this machine: it is not empty, and the
/// path that it denotes ends in a name, which is all of the text. What is one on
/// every operating system is one here.
pub open spec fn is_file_name(name: Seq<char>) -> bool {
    is_plain_name(name) || (name.len() > 0 && path_file_name(text_path(name)) == Some(name))
}

/// The path that adjoins a name to the path without its last component, if it has
/// one.
pub open spec fn sibling(path: PathBuf, name: Seq<char>) -> Option<PathBuf> {
    match path_parent(path) {
        Some(directory) => Some(path_join(directory, name)),
        None => None,
    }
}

/// Whether two paths lead to the same place: they are the same text, or they end
/// in the same name in the same directory. A path may hold more separators than
/// it needs, so that the text alone does not tell.
pub open spec fn same_path(a: PathBuf, b: PathBuf) -> bool {
    ||| a == b
    ||| {
        &&& path_file_name(a) is Some
        &&& path_file_name(a) == path_file_name(b)
        &&& path_parent(a) == path_parent(b)
    }
}

/// Whether `last` is the single file name that was adjoined to a directory to
/// make `path`, if one was.
pub open spec fn ends_as_joined(path: PathBuf, last: Option<Seq<char>>) -> bool {
    forall|directory: PathBuf, name: Seq<char>|
        #![trigger path_join(directory, name)]
        is_file_name(name) && path == path_join(directory, name) ==> last == Some(name)
}

/// Whether `renamed` is the place that adjoining `name` leads to, for a directory
/// that a single file name was adjoined to to make `path`, if one was.
pub open spec fn moves_as_joined(path: PathBuf, name: Seq<char>, renamed: PathBuf) -> bool {
    forall|directory: PathBuf, old_name: Seq<char>|
        #![trigger path_join(directory, old_name)]
        is_file_name(old_name) && path == path_join(directory, old_name) ==> same_path(
            renamed,
            path_join(directory, name),
        )
}

/// `PathBuf::clone` of std: a copy of the path.
pub assume_specification[ <PathBuf as Clone>::clone ](path: &PathBuf) -> (r: PathBuf)
    ensures
        r == *path,
;

/// `PathBuf::from` of std: the path that holds the given text. The last
/// component of a single file name is that name.
#[verifier::external_body]
pub(crate) fn path_from_text(text: &str) -> (r: PathBuf)
    ensures
        r == text_path(text@),
        path_text(r) == Some(text@),
        is_plain_name(text@) ==> path_file_name(r) == Some(text@),
{
    PathBuf::from(text)
}

/// `Path::to_str` of std: the path as text, `None` where it is no valid Unicode.
/// A path that is text is the path that the text denotes.
#[verifier::external_body]
pub(crate) fn path_to_text(path: &PathBuf) -> (r: Option<&str>)
    ensures
        r is Some <==> path_text(*path) is Some,
        r matches Some(s) ==> path_text(*path) == Some(s@) && *path == text_path(s@),
{
    path.to_str()
}

/// `Path::file_name` of std: the last component of the path, `None` where the
/// path does not end in a name or the name is no valid Unicode. A path that ends
/// in a name has something without it. Where a single file name was adjoined to
/// a directory, that is the last component.
#[verifier::external_body]
pub(crate) fn file_name(path: &PathBuf) -> (r: Option<&str>)
    ensures
        r is Some <==> path_file_name(*path) is Some,
        r matches Some(s) ==> path_file_name(*path) == Some(s@),
        r is Some ==> path_parent(*path) is Some,
        ends_as_joined(*path, text::view_of(r)),
{
    path.file_name().and_then(|name| name.to_str())
}

/// `Path::with_file_name` of std, for a path that ends in a name: the last
/// component is taken off and the new name adjoined to the rest. A single file
/// name then is the last component, in the same directory as before, and all of
/// the path where the path was nothing but a name. Where a single file name was
/// adjoined to a directory, the result is the place that adjoining the new one
/// leads to. A name that is only the beginning of the old one leads elsewhere.
#[verifier::external_body]
pub(crate) fn with_file_name(path: &PathBuf, name: &str) -> (r: PathBuf)
    requires
        path_file_name(*path) is Some,
    ensures
        r == path_join(path_parent(*path)->0, name@),
        is_file_name(name@) ==> path_file_name(r) == Some(name@) && path_parent(r) == path_parent(
            *path,
        ),
        is_file_name(name@) && path_text(*path) == path_file_name(*path) ==> path_text(r) == Some(
            name@,
        ) && r == text_path(name@),
        is_file_name(name@) ==> moves_as_joined(*path, name@, r),
        name@.is_prefix_of(path_file_name(*path)->0) && Some(name@) != path_file_name(*path)
            ==> !same_path(r, *path),
{
    path.with_file_name(name)
}

/// `Path::parent` of std: the path without its last component, `None` where it
/// ends in a root or is empty.
#[verifier::external_body]
pub(crate) fn parent(path: &PathBuf) -> (r: Option<PathBuf>)
    ensures
        r == path_parent(*path),
{
    path.parent().map(|parent| parent.to_path_buf())
}

/// `Path::display` of std: the path for the user, which is the path itself where
/// it is text.
#[verifier::external_body]
pub(crate) fn display(path: &PathBuf) -> (r: String)
    ensures
        r@ == path_display(*path),
        path_text(*path) matches Some(text) ==> r@ == text,
{
    path.display().to_string()
}

/// The `Debug` form of a `PathBuf` of std: the path in quotes, with characters
/// that cannot be printed escaped. The escapes are named here and not spelled
/// out.
#[verifier::external_body]
pub(crate) fn quoted(path: &PathBuf) -> (r: String)
    ensures
        r@ == path_debug(*path),
{
    format!("{:?}", path)
}

} // verus!

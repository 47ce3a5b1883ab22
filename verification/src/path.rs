//! Library paths: how a name a caller gives becomes the path of a file to load.
//!
//! Paths are text. Taking a path apart and putting it together again is left
//! to `std::path`, and the platform's file name for a library to `libloading`;
//! whether a file exists is asked by the caller and handed in as a `PathProbe`.

use crate::error::{ErrorView, RegistryError};
use vstd::prelude::*;

verus! {

/// `std::path::PathBuf`, carried through as it is.
#[verifier::external_type_specification]
#[verifier::external_body]
pub struct ExPathBuf(std::path::PathBuf);

/// The characters of a path, where each run of bytes that is no valid UTF-8
/// stands as U+FFFD: what `Path::to_string_lossy` yields.
pub uninterp spec fn path_text(path: std::path::PathBuf) -> Seq<char>;

/// What `Path::file_name` finds in `path`: its last component, unless the path
/// ends in `..`, in a root, or is empty.
pub uninterp spec fn file_name_of(path: Seq<char>) -> Option<Seq<char>>;

/// What `Path::parent` finds in `path`: the path without its last component,
/// unless the path ends in a root or is empty.
pub uninterp spec fn parent_of(path: Seq<char>) -> Option<Seq<char>>;

/// What `Path::with_file_name` makes of `path` and `name`: the path with
/// `name` in place of its file name, or after it where it has none.
pub uninterp spec fn with_file_name_of(path: Seq<char>, name: Seq<char>) -> Seq<char>;

/// What `libloading::library_filename` makes of `name`: the name between the
/// platform's prefix and suffix for shared libraries.
pub uninterp spec fn library_filename_of(name: Seq<char>) -> Seq<char>;

/// An optional string as an optional sequence of characters.
pub open spec fn text_option(text: Option<String>) -> Option<Seq<char>> {
    match text {
        Some(text) => Some(text@),
        None => None,
    }
}

/// A path or an error, each by its view.
pub open spec fn text_result(r: Result<String, RegistryError>) -> Result<Seq<char>, ErrorView> {
    match r {
        Ok(path) => Ok(path@),
        Err(error) => Err(error@),
    }
}

/// Calls `Path::to_string_lossy`. Trusted: the text is the one that
/// `path_text` names, which depends on the path alone.
#[verifier::external_body]
fn lossy_text(path: &std::path::PathBuf) -> (text: String)
    ensures
        text@ == path_text(*path),
{
    path.to_string_lossy().into_owned()
}

/// Calls `Path::file_name` on a path given as text. Trusted: the result is
/// the component that `file_name_of` names. A component of a UTF-8 path is
/// UTF-8, so the conversion back to text changes nothing.
#[verifier::external_body]
fn file_name(path: &str) -> (name: Option<String>)
    ensures
        text_option(name) == file_name_of(path@),
{
    match std::path::Path::new(path).file_name() {
        Some(name) => Some(name.to_string_lossy().into_owned()),
        None => None,
    }
}

/// Calls `Path::parent` on a path given as text. Trusted: the result is the
/// path that `parent_of` names.
#[verifier::external_body]
fn parent(path: &str) -> (parent: Option<String>)
    ensures
        text_option(parent) == parent_of(path@),
{
    match std::path::Path::new(path).parent() {
        Some(parent) => Some(parent.to_string_lossy().into_owned()),
        None => None,
    }
}

/// Calls `Path::with_file_name` on a path and a file name given as text.
/// Trusted: the result is the path that `with_file_name_of` names.
#[verifier::external_body]
fn with_file_name(path: &str, name: &str) -> (renamed: String)
    ensures
        renamed@ == with_file_name_of(path@, name@),
{
    std::path::Path::new(path).with_file_name(name).to_string_lossy().into_owned()
}

/// Calls `libloading::library_filename`. Trusted: the result is the file name
/// that `library_filename_of` names; it is fixed by the name and the platform
/// the crate was built for.
#[verifier::external_body]
fn library_filename(name: &str) -> (file_name: String)
    ensures
        file_name@ == library_filename_of(name@),
{
    libloading::library_filename(name).to_string_lossy().into_owned()
}

/// The text of a path, with U+FFFD in place of whatever is no valid UTF-8.
pub fn string_from_path_buf(path: &std::path::PathBuf) -> (text: String)
    ensures
        text@ == path_text(*path),
{
    lossy_text(path)
}

/// The platform form of `path`, given the file name and the parent that the
/// path has: the path with its file name replaced by the platform's file name
/// for a library of that name.
pub open spec fn platform_path_with_spec(
    path: Seq<char>,
    file_name: Option<Seq<char>>,
    parent: Option<Seq<char>>,
) -> Result<Seq<char>, ErrorView> {
    match file_name {
        Some(name) => Ok(with_file_name_of(path, library_filename_of(name))),
        None => Err(ErrorView::InvalidPath { path, directory: parent is Some }),
    }
}

/// The platform form of `path`.
pub open spec fn platform_path_spec(path: Seq<char>) -> Result<Seq<char>, ErrorView> {
    platform_path_with_spec(path, file_name_of(path), parent_of(path))
}

/// Builds the platform form of `path` from the path's file name and parent.
///
/// A path without a file name has no platform form: it is an `InvalidPath`,
/// marked as a directory where it has a parent.
pub fn platform_path_with(path: &str, file_name: Option<String>, parent: Option<String>) -> (r:
    Result<String, RegistryError>)
    ensures
        text_result(r) == platform_path_with_spec(
            path@,
            text_option(file_name),
            text_option(parent),
        ),
{
    match file_name {
        Some(name) => {
            let platform_name = library_filename(name.as_str());
            Ok(with_file_name(path, platform_name.as_str()))
        },
        None => Err(RegistryError::InvalidPath { path: path.to_owned(), directory: parent.is_some() }),
    }
}

/// The platform form of `path`: `plugins/vscode` becomes `plugins/libvscode.so`
/// where libraries are named that way.
pub fn platform_path(path: &str) -> (r: Result<String, RegistryError>)
    ensures
        text_result(r) == platform_path_spec(path@),
{
    platform_path_with(path, file_name(path), parent(path))
}

/// What the file system said of a path: whether the path exists as given, and
/// whether its platform form exists (`false` where it has none).
#[derive(Debug, Clone, Copy, PartialEq, Eq)]
pub struct PathProbe {
    pub literal_exists: bool,
    pub platform_exists: bool,
}

/// The path to load for `path`, given the path's platform form and what exists.
pub open spec fn resolve_with_spec(
    path: Seq<char>,
    literal_exists: bool,
    platform: Result<Seq<char>, ErrorView>,
    platform_exists: bool,
) -> Result<Seq<char>, ErrorView> {
    if literal_exists {
        Ok(path)
    } else {
        match platform {
            Ok(candidate) => if platform_exists {
                Ok(candidate)
            } else {
                Err(ErrorView::NotFound { path })
            },
            Err(error) => Err(error),
        }
    }
}

/// The path to load for `path`, given what exists.
pub open spec fn resolve_spec(path: Seq<char>, probe: PathProbe) -> Result<Seq<char>, ErrorView> {
    resolve_with_spec(path, probe.literal_exists, platform_path_spec(path), probe.platform_exists)
}

/// Chooses the path to load for `path`.
///
/// A path that exists is taken as it is. Otherwise its platform form is taken
/// if that exists. The error with which the platform form could not be built
/// is handed on; where the platform form does not exist either, the error is
/// `NotFound` with the path as it was given.
pub fn resolve_with(
    path: &str,
    literal_exists: bool,
    platform: Result<String, RegistryError>,
    platform_exists: bool,
) -> (r: Result<String, RegistryError>)
    ensures
        text_result(r) == resolve_with_spec(
            path@,
            literal_exists,
            text_result(platform),
            platform_exists,
        ),
{
    if literal_exists {
        Ok(path.to_owned())
    } else {
        match platform {
            Ok(candidate) => {
                if platform_exists {
                    Ok(candidate)
                } else {
                    Err(RegistryError::NotFound { path: path.to_owned() })
                }
            },
            Err(error) => Err(error),
        }
    }
}

/// Chooses the path to load for `path`, given what the file system said.
pub fn resolve(path: &str, probe: PathProbe) -> (r: Result<String, RegistryError>)
    ensures
        text_result(r) == resolve_spec(path@, probe),
{
    resolve_with(path, probe.literal_exists, platform_path(path), probe.platform_exists)
}

} // verus!

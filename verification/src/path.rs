//! Splitting a path into the folder that holds a file and the file's name.

use vstd::prelude::*;
use crate::error::SpeakError;

verus! {

/// A file addressed the way the storage layer wants it: the folder to open,
/// and the name of the file inside it.
#[derive(Clone, Debug, PartialEq, Eq)]
pub struct Target {
    pub folder: String,
    pub file_name: String,
}

/// What a [`Target`] holds, as text.
pub struct TargetView {
    pub folder: Seq<char>,
    pub file_name: Seq<char>,
}

impl View for Target {
    type V = TargetView;

    open spec fn view(&self) -> TargetView {
        TargetView { folder: self.folder@, file_name: self.file_name@ }
    }
}

/// The parent of `path` as `std::path::Path::parent` gives it, in the path
/// syntax of the platform that the library is built for.
pub uninterp spec fn parent_of(path: Seq<char>) -> Option<Seq<char>>;

/// The last component of `path` as `std::path::Path::file_name` gives it.
pub uninterp spec fn file_name_of(path: Seq<char>) -> Option<Seq<char>>;

/// `path` adjoined to `base` as `std::path::Path::join` gives it.
pub uninterp spec fn joined(base: Seq<char>, path: Seq<char>) -> Seq<char>;

/// Calls `std::path::Path::parent` on `path`. Trusted, not proved: the
/// result is the parent that std computes for this text, a function of the
/// text alone, and the empty path has none.
#[verifier::external_body]
fn path_parent(path: &str) -> (r: Option<String>)
    ensures
        r is Some <==> parent_of(path@) is Some,
        r matches Some(p) ==> parent_of(path@) == Some(p@),
        path@.len() == 0 ==> r is None,
{
    match std::path::Path::new(path).parent() {
        Some(p) => Some(p.to_string_lossy().into_owned()),
        None => None,
    }
}

/// Calls `std::path::Path::file_name` on `path`. Trusted, not proved: the
/// result is the final component that std finds in this text, if it finds
/// one, a function of the text alone.
#[verifier::external_body]
fn path_file_name(path: &str) -> (r: Option<String>)
    ensures
        r is Some <==> file_name_of(path@) is Some,
        r matches Some(n) ==> file_name_of(path@) == Some(n@),
{
    match std::path::Path::new(path).file_name() {
        Some(n) => Some(n.to_string_lossy().into_owned()),
        None => None,
    }
}

/// Calls `std::path::Path::join`. Trusted, not proved: the result is the
/// path that std builds from `base` and `path`, a function of the two texts
/// alone. Nothing more is claimed of it.
#[verifier::external_body]
fn path_join(base: &str, path: &str) -> (r: String)
    ensures
        r@ == joined(base@, path@),
{
    std::path::Path::new(base).join(path).to_string_lossy().into_owned()
}

/// The text of an optional string.
pub open spec fn text_of(s: Option<String>) -> Option<Seq<char>> {
    match s {
        Some(s) => Some(s@),
        None => None,
    }
}

/// The target that a parent and a file name make. A missing parent is
/// reported before a missing file name.
pub open spec fn located(parent: Option<Seq<char>>, file_name: Option<Seq<char>>) -> Result<
    TargetView,
    SpeakError,
> {
    match (parent, file_name) {
        (None, _) => Err(SpeakError::NoPathParent),
        (Some(_), None) => Err(SpeakError::NoFileName),
        (Some(folder), Some(name)) => Ok(TargetView { folder, file_name: name }),
    }
}

/// Whether `r` is the outcome `expected`, a target compared by its text.
pub open spec fn agrees(r: Result<Target, SpeakError>, expected: Result<TargetView, SpeakError>) -> bool {
    match expected {
        Ok(v) => r is Ok && r->Ok_0@ == v,
        Err(e) => r == Err::<Target, SpeakError>(e),
    }
}

/// The path that is opened for `path` when the working directory is `current`.
/// Without a working directory the path is used as it was given.
pub open spec fn adjusted(current: Option<Seq<char>>, path: Seq<char>) -> Seq<char> {
    match current {
        Some(dir) => joined(dir, path),
        None => path,
    }
}

/// Where the file at `path` lies: `located` applied to the parent and the
/// file name of the path.
pub open spec fn target_of(path: Seq<char>) -> Result<TargetView, SpeakError> {
    located(parent_of(path), file_name_of(path))
}

/// Where the text file at `path` lies: the path is resolved against the
/// working directory first and split then.
pub open spec fn input_of(current: Option<Seq<char>>, path: Seq<char>) -> Result<TargetView, SpeakError> {
    target_of(adjusted(current, path))
}

/// Where the output file at `path` lies. The path has to name a file as it
/// was given: where it lacks a parent or a file name, that is the outcome,
/// whatever the working directory is. Only a path that passes is resolved
/// against the working directory and split again for the storage layer.
pub open spec fn output_of(current: Option<Seq<char>>, path: Seq<char>) -> Result<TargetView, SpeakError> {
    match target_of(path) {
        Err(e) => Err(e),
        Ok(_) => target_of(adjusted(current, path)),
    }
}

/// The text of an optional string slice.
pub open spec fn slice_text(s: Option<&str>) -> Option<Seq<char>> {
    match s {
        Some(s) => Some(s@),
        None => None,
    }
}

/// Builds the target from the two components of a path, or says which one
/// is missing.
pub fn locate(parent: Option<String>, file_name: Option<String>) -> (r: Result<Target, SpeakError>)
    ensures
        agrees(r, located(text_of(parent), text_of(file_name))),
        r matches Ok(t) ==> parent == Some(t.folder) && file_name == Some(t.file_name),
{
    match parent {
        None => Err(SpeakError::NoPathParent),
        Some(folder) => match file_name {
            None => Err(SpeakError::NoFileName),
            Some(name) => Ok(Target { folder, file_name: name }),
        },
    }
}

/// Splits `path` into the folder to open and the file name inside it.
///
/// Fails with `NoPathParent` where the path has no parent, which includes
/// the empty path, and with `NoFileName` where it has a parent but no final
/// component.
pub fn get_folder_and_file_name(path: &str) -> (r: Result<Target, SpeakError>)
    ensures
        agrees(r, target_of(path@)),
        path@.len() == 0 ==> r == Err::<Target, SpeakError>(SpeakError::NoPathParent),
{
    let parent = path_parent(path);
    let file_name = path_file_name(path);
    locate(parent, file_name)
}

/// Resolves `path` against the working directory `current`. Where the
/// working directory could not be determined the path stays as given.
pub fn adjust_path(current: Option<&str>, path: &str) -> (r: String)
    ensures
        r@ == adjusted(slice_text(current), path@),
        current is None ==> r@ == path@,
{
    match current {
        Some(dir) => path_join(dir, path),
        None => path.to_owned(),
    }
}

/// Finds the text file at `path`: resolves the path against the working
/// directory `current` and splits the result.
pub fn input_target(current: Option<&str>, path: &str) -> (r: Result<Target, SpeakError>)
    ensures
        agrees(r, input_of(slice_text(current), path@)),
        current is None && path@.len() == 0 ==> r == Err::<Target, SpeakError>(
            SpeakError::NoPathParent,
        ),
{
    let full = adjust_path(current, path);
    get_folder_and_file_name(full.as_str())
}

/// Finds the output file at `path`. The path is split as it was given, so
/// that the empty path fails with `NoPathParent` under every working
/// directory; a path that names a file is then resolved against `current`
/// and split for the storage layer.
pub fn output_target(current: Option<&str>, path: &str) -> (r: Result<Target, SpeakError>)
    ensures
        agrees(r, output_of(slice_text(current), path@)),
        path@.len() == 0 ==> r == Err::<Target, SpeakError>(SpeakError::NoPathParent),
{
    match get_folder_and_file_name(path) {
        Err(e) => Err(e),
        Ok(_) => {
            let full = adjust_path(current, path);
            get_folder_and_file_name(full.as_str())
        },
    }
}

} // verus!

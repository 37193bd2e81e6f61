//! Path helpers offered to scripts.

use std::path::Path;
use vstd::prelude::*;

verus! {

/// File-system helpers for scripts; the ones that touch the disk run outside.
pub struct FileSystemKit;

/// `base` joined with `part`, as Path::join gives it.
pub uninterp spec fn path_joined(base: Seq<char>, part: Seq<char>) -> Seq<char>;

/// The parent of `path`, if it has one, as Path::parent gives it.
pub uninterp spec fn parent_of(path: Seq<char>) -> Option<Seq<char>>;

/// The last component of `path`, if it names a file, as Path::file_name gives it.
pub uninterp spec fn file_name_of(path: Seq<char>) -> Option<Seq<char>>;

/// The extension of `path`, if it has one, as Path::extension gives it.
pub uninterp spec fn extension_of(path: Seq<char>) -> Option<Seq<char>>;

/// Relies on Path::join: `part` appended to `base` as a path; an absolute
/// `part` replaces `base`. The result depends on the two strings alone.
#[verifier::external_body]
fn join_paths(base: &str, part: &str) -> (r: String)
    ensures
        r@ == path_joined(base@, part@),
{
    Path::new(base).join(part).to_string_lossy().to_string()
}

/// Relies on Path::parent: `path` without its last component, or nothing
/// when it ends in a root or a prefix or is empty.
#[verifier::external_body]
fn path_parent_of(path: &str) -> (r: Option<String>)
    ensures
        r.deep_view() == parent_of(path@),
{
    Path::new(path).parent().map(|p| p.to_string_lossy().to_string())
}

/// Relies on Path::file_name: the last component of `path`, or nothing when
/// the path ends in `..` or is a root.
#[verifier::external_body]
fn path_file_name_of(path: &str) -> (r: Option<String>)
    ensures
        r.deep_view() == file_name_of(path@),
{
    Path::new(path).file_name().map(|s| s.to_string_lossy().to_string())
}

/// Relies on Path::extension: what follows the last `.` of the file name,
/// or nothing when there is no such dot past the first character.
#[verifier::external_body]
fn path_extension_of(path: &str) -> (r: Option<String>)
    ensures
        r.deep_view() == extension_of(path@),
{
    Path::new(path).extension().map(|s| s.to_string_lossy().to_string())
}

/// A present value, or the empty text.
pub open spec fn or_empty(o: Option<Seq<char>>) -> Seq<char> {
    match o {
        Some(s) => s,
        None => Seq::empty(),
    }
}

fn text_or_empty(o: Option<String>) -> (r: String)
    ensures
        r@ == or_empty(o.deep_view()),
{
    match o {
        Some(s) => s,
        None => String::new(),
    }
}

impl FileSystemKit {
    /// `path2` joined onto `path1`.
    pub fn path_join(path1: &str, path2: &str) -> (r: String)
        ensures
            r@ == path_joined(path1@, path2@),
    {
        join_paths(path1, path2)
    }

    /// The parent directory of `path`, or the empty text when it has none.
    pub fn path_parent(path: &str) -> (r: String)
        ensures
            r@ == or_empty(parent_of(path@)),
    {
        text_or_empty(path_parent_of(path))
    }

    /// The file name of `path`, or the empty text when it has none.
    pub fn path_filename(path: &str) -> (r: String)
        ensures
            r@ == or_empty(file_name_of(path@)),
    {
        text_or_empty(path_file_name_of(path))
    }

    /// The extension of `path`, or the empty text when it has none.
    pub fn path_extension(path: &str) -> (r: String)
        ensures
            r@ == or_empty(extension_of(path@)),
    {
        text_or_empty(path_extension_of(path))
    }
}

} // verus!

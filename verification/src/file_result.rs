//! The entries of the picker: a file, or a line of a file.
use std::path::{Path, PathBuf};
use vstd::prelude::*;

verus! {

/// A borrowed path of the standard library, taken as an opaque value.
#[verifier::external_type_specification]
#[verifier::external_body]
pub struct ExPath(Path);

/// An owned path of the standard library, taken as an opaque value.
#[verifier::external_type_specification]
#[verifier::external_body]
pub struct ExPathBuf(PathBuf);

/// The bytes that a borrowed path holds, as `Path::as_os_str` gives them.
pub uninterp spec fn path_bytes(path: &Path) -> Seq<u8>;

/// The bytes that an owned path holds, as `PathBuf::as_os_str` gives them.
pub uninterp spec fn buf_bytes(path: PathBuf) -> Seq<u8>;

/// The components that a path with these bytes has, as `Path::components` gives them by the
/// rules of the platform that the library is compiled for.
pub uninterp spec fn path_components(bytes: Seq<u8>) -> Seq<Seq<u8>>;

/// Calls `Path::to_path_buf`, which copies the path: the copy holds the same bytes.
#[verifier::external_body]
pub(crate) fn to_path_buf(path: &Path) -> (buf: PathBuf)
    ensures
        buf_bytes(buf) == path_bytes(path),
{
    path.to_path_buf()
}

/// Calls `PathBuf::as_path`, which borrows the whole path: the borrow holds the same bytes.
#[verifier::external_body]
pub(crate) fn as_path(buf: &PathBuf) -> (path: &Path)
    ensures
        path_bytes(path) == buf_bytes(*buf),
{
    buf.as_path()
}

/// Calls `==` on two paths, which compares them component by component. Which components a
/// path has is left to `path_components`.
#[verifier::external_body]
pub(crate) fn paths_equal(a: &PathBuf, b: &PathBuf) -> (equal: bool)
    ensures
        equal == (path_components(buf_bytes(*a)) == path_components(buf_bytes(*b))),
{
    a == b
}

/// Whether two paths are equal: they have the same components.
pub open spec fn same_path(a: PathBuf, b: PathBuf) -> bool {
    path_components(buf_bytes(a)) == path_components(buf_bytes(b))
}

/// A file, or one line of it.
#[derive(Debug)]
pub struct FileResult {
    pub path: PathBuf,
    /// 0 indexed lines
    pub line_num: Option<usize>,
}

impl FileResult {
    /// Whether this entry lies in the file that is currently open.
    pub open spec fn is_current(self, current_path: Option<PathBuf>) -> bool {
        current_path is Some && same_path(current_path->0, self.path)
    }

    /// An entry for `path`, and for its line `line_num` where one is given.
    pub fn new(path: &Path, line_num: Option<usize>) -> (result: Self)
        ensures
            buf_bytes(result.path) == path_bytes(path),
            result.line_num == line_num,
    {
        FileResult { path: to_path_buf(path), line_num }
    }

    /// The text of this entry's row: its path as seen from the working directory, marked
    /// where it is the file that is currently open.
    pub fn format(&self, relative_path: &str, current_path: &Option<PathBuf>) -> (row: String)
        ensures
            self.is_current(*current_path) ==> row@ == relative_path@ + " (*)"@,
            !self.is_current(*current_path) ==> row@ == relative_path@,
            current_path is None ==> row@ == relative_path@,
            current_path matches Some(path) ==> row@ == (if path_components(buf_bytes(*path))
                == path_components(buf_bytes(self.path)) {
                relative_path@ + " (*)"@
            } else {
                relative_path@
            }),
    {
        let current: bool = match current_path {
            Some(path) => paths_equal(path, &self.path),
            None => false,
        };
        let row: String = relative_path.to_owned();
        if current {
            row.concat(" (*)")
        } else {
            row
        }
    }

    /// What the preview shows of this entry: the file, and the range of lines to highlight,
    /// which is the one line that the entry stands for.
    pub fn preview(&self) -> (preview: (PathBuf, Option<(usize, usize)>))
        ensures
            buf_bytes(preview.0) == buf_bytes(self.path),
            match self.line_num {
                Some(line) => preview.1 == Some((line, line)),
                None => preview.1 is None,
            },
    {
        let lines: Option<(usize, usize)> = match self.line_num {
            Some(line) => Some((line, line)),
            None => None,
        };
        (to_path_buf(as_path(&self.path)), lines)
    }
}

/// The file and the line that an entry stands for.
pub open spec fn place(result: FileResult) -> (Seq<u8>, Option<usize>) {
    (buf_bytes(result.path), result.line_num)
}

/// The files and lines that these entries stand for, in order.
pub open spec fn places(results: Seq<FileResult>) -> Seq<(Seq<u8>, Option<usize>)> {
    Seq::new(results.len(), |i: int| place(results[i]))
}

/// An entry is marked exactly where a file is open whose path has the same components; what line
/// the entry stands for does not matter.
pub proof fn the_open_file_is_marked(entry: FileResult, current_path: Option<PathBuf>)
    ensures
        entry.is_current(current_path) <==> (current_path matches Some(path) && path_components(
            buf_bytes(path),
        ) == path_components(buf_bytes(entry.path))),
{
}

/// The places of entries are those of the single ones, in order: its path and its line.
pub proof fn a_place_is_a_path_and_a_line(results: Seq<FileResult>, i: int)
    requires
        0 <= i < results.len(),
    ensures
        places(results).len() == results.len(),
        places(results)[i].0 == buf_bytes(results[i].path),
        places(results)[i].1 == results[i].line_num,
{
}

} // verus!

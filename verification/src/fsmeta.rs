//! What the library knows of a filesystem entry: the file type and the
//! permission bits its caller observed.  The library never touches the
//! filesystem itself; the binary reads metadata and hands it in.

use vstd::prelude::*;

verus! {

/// The type of a filesystem entry.
#[derive(Debug, Clone, Copy, PartialEq, Eq, Structural)]
pub enum FileType {
    /// A regular file.
    Regular,
    /// A directory.
    Directory,
    /// Anything else a directory entry can name.
    Other,
}

/// Metadata of a path: its type (with symbolic links resolved) and its
/// permission mode bits.
#[derive(Debug, Clone, Copy, PartialEq, Eq, Structural)]
pub struct FileMeta {
    pub file_type: FileType,
    pub mode: u32,
}

/// A path is executable exactly when its metadata could be read, it names a
/// regular file, and an execute bit is set for owner, group or other.
pub open spec fn is_executable_spec(meta: Option<FileMeta>) -> bool {
    match meta {
        Some(m) => m.file_type == FileType::Regular && m.mode & 0o111 != 0,
        None => false,
    }
}

/// Classifies a path as an executable regular file.  `meta` is what reading
/// the path's metadata returned; `None` stands for any read error, which
/// degrades to "not executable" rather than failing.
pub fn is_executable(meta: &Option<FileMeta>) -> (r: bool)
    ensures
        r == is_executable_spec(*meta),
{
    match meta {
        Some(m) => m.file_type == FileType::Regular && m.mode & 0o111 != 0,
        None => false,
    }
}

} // verus!

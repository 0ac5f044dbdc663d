//! What a directory holds, as far as the rules look at it.

use vstd::prelude::*;

verus! {

/// The kind of a file system object.
#[derive(Clone, Copy, Debug, PartialEq, Eq, Structural)]
pub enum EntryKind {
    /// A regular file: the only kind that is classified and moved.
    File,
    /// A directory: the only kind that counts as a year, a month or a day.
    Directory,
    /// Anything else, and what could not be looked at.
    Other,
}

/// One entry of a directory, or one path that a notification reports.
#[derive(Debug)]
pub struct Entry {
    /// The entry's file name.
    pub name: String,
    /// What the entry is.
    pub kind: EntryKind,
}

impl Entry {
    /// Whether the entry is a regular file.
    pub open spec fn is_file(&self) -> bool {
        self.kind == EntryKind::File
    }

    /// Whether the entry is a directory.
    pub open spec fn is_directory(&self) -> bool {
        self.kind == EntryKind::Directory
    }
}

} // verus!

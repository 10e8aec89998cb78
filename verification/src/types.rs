//! The plain values that cross the backend port.

use vstd::prelude::*;

verus! {

/// What a backend reports about a filesystem entry.
#[derive(Debug, Clone, Copy, PartialEq, Eq, Structural)]
pub struct FsMetadata {
    pub is_file: bool,
    pub is_dir: bool,
    pub len: u64,
}

/// One entry of a directory listing, as a backend reports it: a bare name,
/// without the directory in front, and the entry's metadata.
#[derive(Debug, Clone)]
pub struct DirEntry {
    pub name: String,
    pub metadata: FsMetadata,
}

/// The mathematical value of a [`DirEntry`].
pub struct DirEntryView {
    pub name: Seq<char>,
    pub metadata: FsMetadata,
}

impl View for DirEntry {
    type V = DirEntryView;

    open spec fn view(&self) -> DirEntryView {
        DirEntryView { name: self.name@, metadata: self.metadata }
    }
}

/// How a file is to be opened. The bridge hands these to the backend as the
/// caller set them.
#[derive(Debug, Clone, Copy, PartialEq, Eq, Structural)]
pub struct OpenFlags {
    pub read: bool,
    pub write: bool,
    pub create: bool,
    pub create_new: bool,
    pub truncate: bool,
    pub append: bool,
}

impl OpenFlags {
    /// No flag set.
    pub open spec fn none() -> OpenFlags {
        OpenFlags {
            read: false,
            write: false,
            create: false,
            create_new: false,
            truncate: false,
            append: false,
        }
    }

    /// Flags with nothing set.
    pub fn new() -> (r: OpenFlags)
        ensures
            r == OpenFlags::none(),
    {
        OpenFlags {
            read: false,
            write: false,
            create: false,
            create_new: false,
            truncate: false,
            append: false,
        }
    }

    /// These flags with `read` set to `on`.
    pub fn read(self, on: bool) -> (r: OpenFlags)
        ensures
            r == (OpenFlags { read: on, ..self }),
    {
        OpenFlags { read: on, ..self }
    }

    /// These flags with `write` set to `on`.
    pub fn write(self, on: bool) -> (r: OpenFlags)
        ensures
            r == (OpenFlags { write: on, ..self }),
    {
        OpenFlags { write: on, ..self }
    }

    /// These flags with `create` set to `on`.
    pub fn create(self, on: bool) -> (r: OpenFlags)
        ensures
            r == (OpenFlags { create: on, ..self }),
    {
        OpenFlags { create: on, ..self }
    }

    /// These flags with `create_new` set to `on`.
    pub fn create_new(self, on: bool) -> (r: OpenFlags)
        ensures
            r == (OpenFlags { create_new: on, ..self }),
    {
        OpenFlags { create_new: on, ..self }
    }

    /// These flags with `truncate` set to `on`.
    pub fn truncate(self, on: bool) -> (r: OpenFlags)
        ensures
            r == (OpenFlags { truncate: on, ..self }),
    {
        OpenFlags { truncate: on, ..self }
    }

    /// These flags with `append` set to `on`.
    pub fn append(self, on: bool) -> (r: OpenFlags)
        ensures
            r == (OpenFlags { append: on, ..self }),
    {
        OpenFlags { append: on, ..self }
    }
}

/// Where a seek is measured from.
#[derive(Debug, Clone, Copy, PartialEq, Eq, Structural)]
pub enum SeekFrom {
    /// An absolute position.
    Start(u64),
    /// An offset from the end of the file.
    End(i64),
    /// An offset from the current position.
    Current(i64),
}

} // verus!

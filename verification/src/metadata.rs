//! Translation of backend metadata into the shape the execution engine reads.

use vstd::prelude::*;
use vstd::string::*;
use crate::error::FsError;
use crate::path::{join, join_path};
use crate::types::{DirEntry, DirEntryView, FsMetadata};

verus! {

/// The kind of a filesystem entry, one flag per kind.
#[derive(Debug, Clone, Copy, PartialEq, Eq, Structural)]
pub struct FileType {
    pub dir: bool,
    pub file: bool,
    pub symlink: bool,
    pub char_device: bool,
    pub block_device: bool,
    pub socket: bool,
    pub fifo: bool,
}

impl FileType {
    /// The type with no flag set.
    pub open spec fn none() -> FileType {
        FileType {
            dir: false,
            file: false,
            symlink: false,
            char_device: false,
            block_device: false,
            socket: false,
            fifo: false,
        }
    }

    /// The type of a directory: only `dir` is set.
    pub fn new_dir() -> (r: FileType)
        ensures
            r == (FileType { dir: true, ..FileType::none() }),
    {
        FileType {
            dir: true,
            file: false,
            symlink: false,
            char_device: false,
            block_device: false,
            socket: false,
            fifo: false,
        }
    }

    /// The type of a regular file: only `file` is set.
    pub fn new_file() -> (r: FileType)
        ensures
            r == (FileType { file: true, ..FileType::none() }),
    {
        FileType {
            dir: false,
            file: true,
            symlink: false,
            char_device: false,
            block_device: false,
            socket: false,
            fifo: false,
        }
    }

    pub fn is_dir(&self) -> (r: bool)
        ensures
            r == self.dir,
    {
        self.dir
    }

    pub fn is_file(&self) -> (r: bool)
        ensures
            r == self.file,
    {
        self.file
    }
}

/// Metadata in the shape the execution engine reads.
#[derive(Debug, Clone, Copy, PartialEq, Eq, Structural)]
pub struct Metadata {
    pub ft: FileType,
    pub accessed: u64,
    pub created: u64,
    pub modified: u64,
    pub len: u64,
}

impl Metadata {
    pub fn is_file(&self) -> (r: bool)
        ensures
            r == self.ft.file,
    {
        self.ft.file
    }

    pub fn is_dir(&self) -> (r: bool)
        ensures
            r == self.ft.dir,
    {
        self.ft.dir
    }

    pub fn len(&self) -> (r: u64)
        ensures
            r == self.len,
    {
        self.len
    }
}

/// What backend metadata translates to: a directory if the backend says so,
/// a regular file otherwise; the length as reported; every timestamp zero.
pub open spec fn translated(m: FsMetadata) -> Metadata {
    Metadata {
        ft: if m.is_dir {
            FileType { dir: true, ..FileType::none() }
        } else {
            FileType { file: true, ..FileType::none() }
        },
        accessed: 0,
        created: 0,
        modified: 0,
        len: m.len,
    }
}

/// Translates backend metadata for the execution engine.
pub fn to_vfs_metadata(m: &FsMetadata) -> (r: Metadata)
    ensures
        r == translated(*m),
{
    Metadata {
        ft: if m.is_dir {
            FileType::new_dir()
        } else {
            FileType::new_file()
        },
        accessed: 0,
        created: 0,
        modified: 0,
        len: m.len,
    }
}

/// What a backend's answer to a metadata query translates to: metadata is
/// translated, a failure is passed on as it is.
pub open spec fn translated_result(m: Result<FsMetadata, FsError>) -> Result<Metadata, FsError> {
    match m {
        Ok(meta) => Ok(translated(meta)),
        Err(e) => Err(e),
    }
}

/// Translates a backend's answer to a metadata query.
pub fn to_vfs_metadata_result(m: Result<FsMetadata, FsError>) -> (r: Result<Metadata, FsError>)
    ensures
        r == translated_result(m),
{
    match m {
        Ok(meta) => Ok(to_vfs_metadata(&meta)),
        Err(e) => Err(e),
    }
}

/// One entry of a directory listing as the execution engine reads it: the
/// entry's full path and its translated metadata.
#[derive(Debug, Clone)]
pub struct VfsDirEntry {
    pub path: String,
    pub metadata: Metadata,
}

/// The mathematical value of a [`VfsDirEntry`].
pub struct VfsDirEntryView {
    pub path: Seq<char>,
    pub metadata: Metadata,
}

impl View for VfsDirEntry {
    type V = VfsDirEntryView;

    open spec fn view(&self) -> VfsDirEntryView {
        VfsDirEntryView { path: self.path@, metadata: self.metadata }
    }
}

/// What one backend entry of the directory `dir` translates to.
pub open spec fn listed_entry(dir: Seq<char>, entry: DirEntryView) -> VfsDirEntryView {
    VfsDirEntryView { path: join_path(dir, entry.name), metadata: translated(entry.metadata) }
}

/// What a backend listing of the directory `dir` translates to: the same
/// entries in the same order, each translated.
pub open spec fn listed(dir: Seq<char>, entries: Seq<DirEntry>) -> Seq<VfsDirEntryView> {
    Seq::new(entries.len(), |i: int| listed_entry(dir, entries[i]@))
}

/// The values of a sequence of entries.
pub open spec fn entry_views(entries: Seq<VfsDirEntry>) -> Seq<VfsDirEntryView> {
    Seq::new(entries.len(), |i: int| entries[i]@)
}

/// What a backend's answer to a listing of `dir` translates to.
pub open spec fn listing_translates(
    dir: Seq<char>,
    listing: Result<Vec<DirEntry>, FsError>,
    r: Result<Vec<VfsDirEntry>, FsError>,
) -> bool {
    match listing {
        Ok(entries) => r matches Ok(out) && entry_views(out@) == listed(dir, entries@),
        Err(e) => r == Err::<Vec<VfsDirEntry>, FsError>(e),
    }
}

/// Translates one backend entry of the directory `dir`.
pub fn to_vfs_entry(dir: &str, entry: &DirEntry) -> (r: VfsDirEntry)
    ensures
        r@ == listed_entry(dir@, entry@),
{
    VfsDirEntry { path: join(dir, entry.name.as_str()), metadata: to_vfs_metadata(&entry.metadata) }
}

/// Translates a backend listing of the directory `dir`.
pub fn to_vfs_entries(dir: &str, entries: &Vec<DirEntry>) -> (r: Vec<VfsDirEntry>)
    ensures
        entry_views(r@) == listed(dir@, entries@),
{
    let n = entries.len();
    let mut out: Vec<VfsDirEntry> = Vec::new();
    let mut i: usize = 0;
    while i < n
        invariant
            n == entries@.len(),
            0 <= i <= n,
            out@.len() == i,
            forall|k: int| 0 <= k < i ==> (#[trigger] out@[k])@ == listed_entry(dir@, entries@[k]@),
        decreases n - i,
    {
        out.push(to_vfs_entry(dir, &entries[i]));
        i += 1;
    }
    assert(entry_views(out@) =~= listed(dir@, entries@));
    out
}

/// Translates a backend's answer to a listing of `dir`.
pub fn to_vfs_listing(dir: &str, listing: Result<Vec<DirEntry>, FsError>) -> (r: Result<
    Vec<VfsDirEntry>,
    FsError,
>)
    ensures
        listing_translates(dir@, listing, r),
{
    match listing {
        Ok(entries) => Ok(to_vfs_entries(dir, &entries)),
        Err(e) => Err(e),
    }
}

} // verus!

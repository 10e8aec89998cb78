//! The local backend: files held in memory, opened through a handle table.
//!
//! Opening a file copies its current bytes into the new handle's buffer.
//! Reads are served from that copy. Every write goes into the copy and is
//! then persisted at once, by storing the whole buffer as the file.

use vstd::prelude::*;
use vstd::slice::slice_to_vec;
use vstd::string::*;
use crate::callbacks::FsCallbacks;
use crate::error::FsError;
use crate::handle::{ids_exhausted_message, write_too_large_message, HandleTable, TableState};
use crate::store::FileStore;
use crate::types::{DirEntry, FsMetadata, OpenFlags, SeekFrom};

verus! {

/// The mathematical value of the local backend: its files and its open handles.
pub struct LocalState {
    pub files: Map<Seq<char>, Seq<u8>>,
    pub table: TableState,
}

/// The metadata of a stored file with the bytes `data`.
pub open spec fn file_metadata(data: Seq<u8>) -> FsMetadata {
    FsMetadata { is_file: true, is_dir: false, len: data.len() as u64 }
}

/// Every file is of a length that fits in memory.
pub open spec fn files_fit(files: Map<Seq<char>, Seq<u8>>) -> bool {
    forall|path: Seq<char>|
        #![trigger files.contains_key(path)]
        files.contains_key(path) ==> files[path].len() <= usize::MAX
}

/// Files that fit still do after one that fits was put among them.
proof fn lemma_fit_insert(files: Map<Seq<char>, Seq<u8>>, path: Seq<char>, data: Seq<u8>)
    requires
        files_fit(files),
        data.len() <= usize::MAX,
    ensures
        files_fit(files.insert(path, data)),
{
    assert forall|p: Seq<char>| #[trigger] files.insert(path, data).contains_key(p) implies files.insert(
        path,
        data,
    )[p].len() <= usize::MAX by {
        if p != path {
            assert(files.contains_key(p));
        }
    }
}

/// Files that fit still do after one was taken away.
proof fn lemma_fit_remove(files: Map<Seq<char>, Seq<u8>>, path: Seq<char>)
    requires
        files_fit(files),
    ensures
        files_fit(files.remove(path)),
{
    assert forall|p: Seq<char>| #[trigger] files.remove(path).contains_key(p) implies files.remove(
        path,
    )[p].len() <= usize::MAX by {
        assert(files.contains_key(p));
    }
}

impl LocalState {
    /// No files, no open handles.
    pub open spec fn empty() -> LocalState {
        LocalState { files: Map::empty(), table: TableState::empty() }
    }

    /// The handle table is sound, and every file is of a length that fits
    /// in memory.
    pub open spec fn wf(self) -> bool {
        &&& self.table.wf()
        &&& files_fit(self.files)
    }

    /// What asking for the metadata of `path` gives.
    pub open spec fn metadata_of(self, path: Seq<char>) -> Result<FsMetadata, FsError> {
        if self.files.contains_key(path) {
            Ok(file_metadata(self.files[path]))
        } else {
            Err(FsError::NotFound)
        }
    }

    /// The bytes a handle starts with when it is opened on `path`: the file's
    /// bytes, or none if there is no such file.
    pub open spec fn content_at(self, path: Seq<char>) -> Seq<u8> {
        if self.files.contains_key(path) {
            self.files[path]
        } else {
            Seq::empty()
        }
    }

    /// The state after the file at `path` was replaced with `bytes`.
    pub open spec fn wrote_file(self, path: Seq<char>, bytes: Seq<u8>) -> LocalState {
        LocalState { files: self.files.insert(path, bytes), ..self }
    }

    /// The state after the file at `path` was removed.
    pub open spec fn removed_file(self, path: Seq<char>) -> LocalState {
        LocalState { files: self.files.remove(path), ..self }
    }

    /// The state after the file at `from` was moved to `to`.
    pub open spec fn renamed(self, from: Seq<char>, to: Seq<char>) -> LocalState {
        LocalState { files: self.files.remove(from).insert(to, self.files[from]), ..self }
    }

    /// The state after `path` was opened.
    pub open spec fn opened(self, path: Seq<char>) -> LocalState {
        LocalState { table: self.table.opened(path, self.content_at(path)), ..self }
    }

    /// The state after a read of at most `max_len` bytes from `handle`.
    pub open spec fn after_read(self, handle: u64, max_len: usize) -> LocalState {
        LocalState { table: self.table.after_read(handle, max_len), ..self }
    }

    /// The state after `bytes` were written to `handle`: the handle's buffer
    /// holds them, and the file at the handle's path is that whole buffer.
    pub open spec fn after_write(self, handle: u64, bytes: Seq<u8>) -> LocalState {
        let file = self.table.open[handle].after_write(bytes);
        LocalState {
            files: self.files.insert(file.path, file.buffer),
            table: self.table.after_write(handle, bytes),
        }
    }

    /// The state after a seek on `handle`.
    pub open spec fn after_seek(self, handle: u64, pos: SeekFrom) -> LocalState {
        LocalState { table: self.table.after_seek(handle, pos), ..self }
    }

    /// The state after `handle` was closed.
    pub open spec fn after_close(self, handle: u64) -> LocalState {
        LocalState { table: self.table.after_close(handle), ..self }
    }
}

/// A backend that keeps its files in memory.
pub struct LocalBackend {
    store: FileStore,
    table: HandleTable,
}

impl View for LocalBackend {
    type V = LocalState;

    closed spec fn view(&self) -> LocalState {
        LocalState { files: self.store@, table: self.table@ }
    }
}

impl LocalBackend {
    /// The file store's representation is sound.
    pub closed spec fn store_wf(&self) -> bool {
        self.store.wf()
    }

    /// A backend with no files and no open handles.
    pub fn new() -> (r: LocalBackend)
        ensures
            r.wf(),
            r@ == LocalState::empty(),
    {
        LocalBackend { store: FileStore::new(), table: HandleTable::new() }
    }

    /// Whether `handle` names an open file.
    pub fn is_open(&self, handle: u64) -> (r: bool)
        ensures
            r == self@.table.open.contains_key(handle),
    {
        self.table.is_open(handle)
    }

    /// The cursor of the open file `handle`.
    pub fn cursor(&self, handle: u64) -> (r: Option<u64>)
        ensures
            match r {
                Some(c) => self@.table.open.contains_key(handle) && c
                    == self@.table.open[handle].cursor,
                None => !self@.table.open.contains_key(handle),
            },
    {
        self.table.cursor(handle)
    }
}

impl FsCallbacks for LocalBackend {
    open spec fn wf(&self) -> bool {
        self@.wf() && self.store_wf()
    }

    /// The file's bytes if it is stored, `NotFound` if it is not.
    open spec fn read_file_post(&self, path: Seq<char>, r: Result<Vec<u8>, FsError>) -> bool {
        match r {
            Ok(data) => self@.files.contains_key(path) && data@ == self@.files[path],
            Err(e) => !self@.files.contains_key(path) && e is NotFound,
        }
    }

    /// A regular file of the stored length if it is stored, `NotFound` if it is not.
    open spec fn metadata_post(&self, path: Seq<char>, r: Result<FsMetadata, FsError>) -> bool {
        r == self@.metadata_of(path)
    }

    /// The local backend keeps no directories: every listing is empty.
    open spec fn read_dir_post(&self, path: Seq<char>, r: Result<Vec<DirEntry>, FsError>) -> bool {
        r matches Ok(entries) && entries@.len() == 0
    }

    /// Always succeeds.
    open spec fn write_file_post(
        &self,
        after: &Self,
        path: Seq<char>,
        bytes: Seq<u8>,
        r: Result<(), FsError>,
    ) -> bool {
        r is Ok && after@ == self@.wrote_file(path, bytes)
    }

    /// Always succeeds and changes nothing.
    open spec fn create_dir_post(&self, after: &Self, path: Seq<char>, r: Result<(), FsError>) -> bool {
        r is Ok && after@ == self@
    }

    /// Always succeeds and changes nothing.
    open spec fn remove_dir_post(&self, after: &Self, path: Seq<char>, r: Result<(), FsError>) -> bool {
        r is Ok && after@ == self@
    }

    /// Succeeds if the file is stored, fails with `NotFound` if it is not;
    /// either way no file is stored under `path` afterwards.
    open spec fn remove_file_post(&self, after: &Self, path: Seq<char>, r: Result<(), FsError>) -> bool {
        &&& after@ == self@.removed_file(path)
        &&& match r {
            Ok(_) => self@.files.contains_key(path),
            Err(e) => !self@.files.contains_key(path) && e is NotFound,
        }
    }

    /// Moves the file if `from` is stored; fails with `NotFound` and changes
    /// nothing if it is not.
    open spec fn rename_post(
        &self,
        after: &Self,
        from: Seq<char>,
        to: Seq<char>,
        r: Result<(), FsError>,
    ) -> bool {
        match r {
            Ok(_) => self@.files.contains_key(from) && after@ == self@.renamed(from, to),
            Err(e) => !self@.files.contains_key(from) && e is NotFound && after@ == self@,
        }
    }

    /// Succeeds with the next identifier as long as one is left. The flags
    /// are not interpreted.
    open spec fn open_post(
        &self,
        after: &Self,
        path: Seq<char>,
        flags: OpenFlags,
        r: Result<u64, FsError>,
    ) -> bool {
        match r {
            Ok(id) => {
                &&& self@.table.can_allocate()
                &&& id == self@.table.next_id
                &&& after@ == self@.opened(path)
            },
            Err(e) => {
                &&& !self@.table.can_allocate()
                &&& e.is_backend_error(ids_exhausted_message())
                &&& after@ == self@
            },
        }
    }

    /// Serves bytes from the handle's buffer; `InvalidHandle` if it is not open.
    open spec fn handle_read_post(
        &self,
        after: &Self,
        handle: u64,
        max_len: usize,
        r: Result<Vec<u8>, FsError>,
    ) -> bool {
        match r {
            Ok(bytes) => {
                &&& self@.table.open.contains_key(handle)
                &&& bytes@ == self@.table.open[handle].read_bytes(max_len)
                &&& after@ == self@.after_read(handle, max_len)
            },
            Err(e) => {
                &&& !self@.table.open.contains_key(handle)
                &&& e is InvalidHandle
                &&& after@ == self@
            },
        }
    }

    /// Writes all of `bytes` and persists the buffer; `InvalidHandle` if the
    /// handle is not open, a backend error if the write does not fit. A
    /// failed write changes nothing.
    open spec fn handle_write_post(
        &self,
        after: &Self,
        handle: u64,
        bytes: Seq<u8>,
        r: Result<usize, FsError>,
    ) -> bool {
        match r {
            Ok(n) => {
                &&& self@.table.open.contains_key(handle)
                &&& self@.table.open[handle].write_fits(bytes)
                &&& n == bytes.len()
                &&& after@ == self@.after_write(handle, bytes)
            },
            Err(e) => {
                &&& after@ == self@
                &&& if self@.table.open.contains_key(handle) {
                    &&& !self@.table.open[handle].write_fits(bytes)
                    &&& e.is_backend_error(write_too_large_message())
                } else {
                    e is InvalidHandle
                }
            },
        }
    }

    /// Moves the cursor; `InvalidHandle` if the handle is not open.
    open spec fn handle_seek_post(
        &self,
        after: &Self,
        handle: u64,
        pos: SeekFrom,
        r: Result<u64, FsError>,
    ) -> bool {
        match r {
            Ok(position) => {
                &&& self@.table.open.contains_key(handle)
                &&& position == self@.table.open[handle].seek_target(pos)
                &&& after@ == self@.after_seek(handle, pos)
            },
            Err(e) => {
                &&& !self@.table.open.contains_key(handle)
                &&& e is InvalidHandle
                &&& after@ == self@
            },
        }
    }

    /// Forgets the handle; `InvalidHandle` if it is not open.
    open spec fn handle_close_post(&self, after: &Self, handle: u64, r: Result<(), FsError>) -> bool {
        &&& after@ == self@.after_close(handle)
        &&& match r {
            Ok(_) => self@.table.open.contains_key(handle),
            Err(e) => !self@.table.open.contains_key(handle) && e is InvalidHandle,
        }
    }

    fn read_file(&self, path: &str) -> (r: Result<Vec<u8>, FsError>) {
        match self.store.read(path) {
            Some(data) => Ok(data),
            None => Err(FsError::NotFound),
        }
    }

    fn write_file(&mut self, path: &str, bytes: &[u8]) -> (r: Result<(), FsError>) {
        let data = slice_to_vec(bytes);
        proof {
            assert(data.len() == data@.len());
            lemma_fit_insert(self@.files, path@, data@);
        }
        self.store.insert(path, data);
        Ok(())
    }

    fn metadata(&self, path: &str) -> (r: Result<FsMetadata, FsError>) {
        match self.store.len_of(path) {
            Some(len) => Ok(FsMetadata { is_file: true, is_dir: false, len: len as u64 }),
            None => Err(FsError::NotFound),
        }
    }

    fn read_dir(&self, path: &str) -> (r: Result<Vec<DirEntry>, FsError>) {
        Ok(Vec::new())
    }

    fn create_dir(&mut self, path: &str) -> (r: Result<(), FsError>) {
        Ok(())
    }

    fn remove_dir(&mut self, path: &str) -> (r: Result<(), FsError>) {
        Ok(())
    }

    fn remove_file(&mut self, path: &str) -> (r: Result<(), FsError>) {
        proof {
            lemma_fit_remove(self@.files, path@);
        }
        match self.store.remove(path) {
            Some(_) => Ok(()),
            None => Err(FsError::NotFound),
        }
    }

    fn rename(&mut self, from: &str, to: &str) -> (r: Result<(), FsError>) {
        match self.store.remove(from) {
            Some(data) => {
                proof {
                    lemma_fit_remove(old(self)@.files, from@);
                    lemma_fit_insert(old(self)@.files.remove(from@), to@, data@);
                }
                self.store.insert(to, data);
                Ok(())
            },
            None => {
                assert(self@.files =~= old(self)@.files);
                Err(FsError::NotFound)
            },
        }
    }

    fn open(&mut self, path: &str, flags: &OpenFlags) -> (r: Result<u64, FsError>) {
        let content = match self.store.read(path) {
            Some(data) => data,
            None => Vec::new(),
        };
        let r = self.table.open(path, content);
        assert(self@.files == old(self)@.files);
        r
    }

    fn handle_read(&mut self, handle: u64, max_len: usize) -> (r: Result<Vec<u8>, FsError>) {
        let r = self.table.read(handle, max_len);
        assert(self@.files == old(self)@.files);
        r
    }

    fn handle_write(&mut self, handle: u64, bytes: &[u8]) -> (r: Result<usize, FsError>) {
        let written = match self.table.write(handle, bytes) {
            Ok(n) => n,
            Err(e) => {
                assert(self@.files == old(self)@.files);
                return Err(e);
            },
        };
        match self.table.snapshot(handle) {
            Some((path, image)) => {
                proof {
                    lemma_fit_insert(old(self)@.files, path@, image@);
                }
                self.store.insert(path.as_str(), image);
            },
            None => {},
        }
        Ok(written)
    }

    fn handle_seek(&mut self, handle: u64, pos: SeekFrom) -> (r: Result<u64, FsError>) {
        let r = self.table.seek(handle, pos);
        assert(self@.files == old(self)@.files);
        r
    }

    fn handle_close(&mut self, handle: u64) -> (r: Result<(), FsError>) {
        let r = self.table.close(handle);
        assert(self@.files == old(self)@.files);
        r
    }
}

} // verus!

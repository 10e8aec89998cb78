//! The filesystem facade and the per-file object it hands out.
//!
//! The facade is the one entry point of the bridge. Each method forwards to
//! the backend port; what comes back is passed on unchanged, except that
//! metadata and directory listings are translated into the shape the
//! execution engine reads.

use vstd::prelude::*;
use vstd::string::*;
use crate::callbacks::FsCallbacks;
use crate::error::FsError;
use crate::metadata::{
    listing_translates,
    to_vfs_listing,
    to_vfs_metadata_result,
    translated_result,
    Metadata,
    VfsDirEntry,
};
use crate::types::{DirEntry, FsMetadata, OpenFlags, SeekFrom};

verus! {

/// The outcome of polling an operation.
#[derive(Debug)]
pub enum Poll<T> {
    /// The operation has completed with this value.
    Ready(T),
    /// The operation has not completed yet. The bridge never reports this.
    Pending,
}

/// A filesystem whose every operation is served by a backend.
pub struct ProxyFileSystem<B: FsCallbacks> {
    pub callbacks: B,
}

impl<B: FsCallbacks> ProxyFileSystem<B> {
    /// The backend is consistent.
    pub open spec fn wf(&self) -> bool {
        self.callbacks.wf()
    }

    /// A filesystem on top of `callbacks`.
    pub fn new(callbacks: B) -> (r: Self)
        ensures
            r.callbacks == callbacks,
    {
        ProxyFileSystem { callbacks }
    }

    /// Reads the whole file at `path`.
    pub fn read_file(&self, path: &str) -> (r: Result<Vec<u8>, FsError>)
        requires
            self.wf(),
        ensures
            self.callbacks.read_file_post(path@, r),
    {
        self.callbacks.read_file(path)
    }

    /// Replaces the file at `path` with `contents`.
    pub fn write_file(&mut self, path: &str, contents: &[u8]) -> (r: Result<(), FsError>)
        requires
            old(self).wf(),
        ensures
            final(self).wf(),
            old(self).callbacks.write_file_post(&final(self).callbacks, path@, contents@, r),
    {
        self.callbacks.write_file(path, contents)
    }

    /// The metadata of the entry at `path`, translated for the execution
    /// engine. A failure of the backend is passed on unchanged.
    pub fn metadata(&self, path: &str) -> (r: Result<Metadata, FsError>)
        requires
            self.wf(),
        ensures
            exists|m: Result<FsMetadata, FsError>| #[trigger]
                self.callbacks.metadata_post(path@, m) && r == translated_result(m),
    {
        let m = self.callbacks.metadata(path);
        to_vfs_metadata_result(m)
    }

    /// The same as [`Self::metadata`]: the bridge knows no symbolic links.
    pub fn symlink_metadata(&self, path: &str) -> (r: Result<Metadata, FsError>)
        requires
            self.wf(),
        ensures
            exists|m: Result<FsMetadata, FsError>| #[trigger]
                self.callbacks.metadata_post(path@, m) && r == translated_result(m),
    {
        self.metadata(path)
    }

    /// Lists the directory at `path`. Each entry comes back with its full
    /// path, the bare name joined onto `path`, and translated metadata, in
    /// the order in which the backend listed them.
    pub fn read_dir(&self, path: &str) -> (r: Result<Vec<VfsDirEntry>, FsError>)
        requires
            self.wf(),
        ensures
            exists|listing: Result<Vec<DirEntry>, FsError>| #[trigger]
                self.callbacks.read_dir_post(path@, listing) && listing_translates(
                    path@,
                    listing,
                    r,
                ),
    {
        let listing = self.callbacks.read_dir(path);
        let ghost seen = listing;
        let r = to_vfs_listing(path, listing);
        assert(self.callbacks.read_dir_post(path@, seen) && listing_translates(path@, seen, r));
        r
    }

    /// Creates a directory at `path`.
    pub fn create_dir(&mut self, path: &str) -> (r: Result<(), FsError>)
        requires
            old(self).wf(),
        ensures
            final(self).wf(),
            old(self).callbacks.create_dir_post(&final(self).callbacks, path@, r),
    {
        self.callbacks.create_dir(path)
    }

    /// Removes the directory at `path`.
    pub fn remove_dir(&mut self, path: &str) -> (r: Result<(), FsError>)
        requires
            old(self).wf(),
        ensures
            final(self).wf(),
            old(self).callbacks.remove_dir_post(&final(self).callbacks, path@, r),
    {
        self.callbacks.remove_dir(path)
    }

    /// Removes the file at `path`.
    pub fn remove_file(&mut self, path: &str) -> (r: Result<(), FsError>)
        requires
            old(self).wf(),
        ensures
            final(self).wf(),
            old(self).callbacks.remove_file_post(&final(self).callbacks, path@, r),
    {
        self.callbacks.remove_file(path)
    }

    /// Moves the entry at `from` to `to` with a single call to the backend.
    pub fn rename(&mut self, from: &str, to: &str) -> (r: Result<(), FsError>)
        requires
            old(self).wf(),
        ensures
            final(self).wf(),
            old(self).callbacks.rename_post(&final(self).callbacks, from@, to@, r),
    {
        self.callbacks.rename(from, to)
    }

    /// Symbolic links are not supported: fails without asking the backend.
    pub fn readlink(&self, path: &str) -> (r: Result<String, FsError>)
        ensures
            r matches Err(e) && e is Unsupported,
    {
        Err(FsError::Unsupported)
    }

    /// Mounting is not supported: fails without asking the backend.
    pub fn mount<F>(&self, name: String, path: &str, fs: F) -> (r: Result<(), FsError>)
        ensures
            r matches Err(e) && e is Unsupported,
    {
        Err(FsError::Unsupported)
    }

    /// The flags to start an open from: none set.
    pub fn new_open_options(&self) -> (r: OpenFlags)
        ensures
            r == OpenFlags::none(),
    {
        OpenFlags::new()
    }

    /// Opens the file at `path` and returns the object to read, write and
    /// seek it with. The flags reach the backend as they are.
    pub fn open(&mut self, path: &str, flags: &OpenFlags) -> (r: Result<ProxyFile, FsError>)
        requires
            old(self).wf(),
        ensures
            final(self).wf(),
            old(self).callbacks.open_post(&final(self).callbacks, path@, *flags, handle_of(r)),
            r matches Ok(file) ==> file.position == 0,
    {
        match self.callbacks.open(path, flags) {
            Ok(handle) => Ok(ProxyFile { handle, position: 0 }),
            Err(e) => Err(e),
        }
    }

    /// Reads at most `max_len` bytes from `handle`.
    pub fn handle_read(&mut self, handle: u64, max_len: usize) -> (r: Result<Vec<u8>, FsError>)
        requires
            old(self).wf(),
        ensures
            final(self).wf(),
            old(self).callbacks.handle_read_post(&final(self).callbacks, handle, max_len, r),
    {
        self.callbacks.handle_read(handle, max_len)
    }

    /// Writes `data` to `handle` and returns how many bytes were written.
    pub fn handle_write(&mut self, handle: u64, data: &[u8]) -> (r: Result<usize, FsError>)
        requires
            old(self).wf(),
        ensures
            final(self).wf(),
            old(self).callbacks.handle_write_post(&final(self).callbacks, handle, data@, r),
    {
        self.callbacks.handle_write(handle, data)
    }

    /// Moves the cursor of `handle` and returns its new position.
    pub fn handle_seek(&mut self, handle: u64, pos: SeekFrom) -> (r: Result<u64, FsError>)
        requires
            old(self).wf(),
        ensures
            final(self).wf(),
            old(self).callbacks.handle_seek_post(&final(self).callbacks, handle, pos, r),
    {
        self.callbacks.handle_seek(handle, pos)
    }

    /// Closes `handle`.
    pub fn handle_close(&mut self, handle: u64) -> (r: Result<(), FsError>)
        requires
            old(self).wf(),
        ensures
            final(self).wf(),
            old(self).callbacks.handle_close_post(&final(self).callbacks, handle, r),
    {
        self.callbacks.handle_close(handle)
    }
}

/// The handle identifier inside the result of an open.
pub open spec fn handle_of(r: Result<ProxyFile, FsError>) -> Result<u64, FsError> {
    match r {
        Ok(file) => Ok(file.handle),
        Err(e) => Err(e),
    }
}

/// An open file. Every operation on it goes to the backend under the
/// file's handle identifier, and completes at once.
#[derive(Debug)]
pub struct ProxyFile {
    /// The identifier under which the backend knows this file.
    pub handle: u64,
    /// The position that the last successful seek reported, measured from
    /// the start of the file; zero before the first seek.
    pub position: u64,
}

impl ProxyFile {
    /// Not tracked by the bridge: always zero.
    pub fn last_accessed(&self) -> (r: u64)
        ensures
            r == 0,
    {
        0
    }

    /// Not tracked by the bridge: always zero.
    pub fn last_modified(&self) -> (r: u64)
        ensures
            r == 0,
    {
        0
    }

    /// Not tracked by the bridge: always zero.
    pub fn created_time(&self) -> (r: u64)
        ensures
            r == 0,
    {
        0
    }

    /// Not tracked by the bridge: always zero.
    pub fn size(&self) -> (r: u64)
        ensures
            r == 0,
    {
        0
    }

    /// Not supported by any backend.
    pub fn set_len(&mut self, new_size: u64) -> (r: Result<(), FsError>)
        ensures
            r matches Err(e) && e is Unsupported,
            *final(self) == *old(self),
    {
        Err(FsError::Unsupported)
    }

    /// Not supported by any backend.
    pub fn unlink(&mut self) -> (r: Result<(), FsError>)
        ensures
            r matches Err(e) && e is Unsupported,
            *final(self) == *old(self),
    {
        Err(FsError::Unsupported)
    }

    /// The file can always be read from at once.
    pub fn poll_read_ready(&self) -> (r: Poll<Result<usize, FsError>>)
        ensures
            r matches Poll::Ready(Ok(n)) && n == 0,
    {
        Poll::Ready(Ok(0))
    }

    /// The file can always be written to at once.
    pub fn poll_write_ready(&self) -> (r: Poll<Result<usize, FsError>>)
        ensures
            r matches Poll::Ready(Ok(n)) && n == 0,
    {
        Poll::Ready(Ok(0))
    }

    /// Reads at most `max_len` bytes. Completes on the first poll with
    /// whatever the backend returned.
    pub fn poll_read<B: FsCallbacks>(
        &mut self,
        fs: &mut ProxyFileSystem<B>,
        max_len: usize,
    ) -> (r: Poll<Result<Vec<u8>, FsError>>)
        requires
            old(fs).wf(),
        ensures
            final(fs).wf(),
            *final(self) == *old(self),
            r matches Poll::Ready(got) && old(fs).callbacks.handle_read_post(
                &final(fs).callbacks,
                old(self).handle,
                max_len,
                got,
            ),
    {
        Poll::Ready(fs.callbacks.handle_read(self.handle, max_len))
    }

    /// Writes `buf`. Completes on the first poll with whatever the backend
    /// returned.
    pub fn poll_write<B: FsCallbacks>(&mut self, fs: &mut ProxyFileSystem<B>, buf: &[u8]) -> (r:
        Poll<Result<usize, FsError>>)
        requires
            old(fs).wf(),
        ensures
            final(fs).wf(),
            *final(self) == *old(self),
            r matches Poll::Ready(got) && old(fs).callbacks.handle_write_post(
                &final(fs).callbacks,
                old(self).handle,
                buf@,
                got,
            ),
    {
        Poll::Ready(fs.callbacks.handle_write(self.handle, buf))
    }

    /// Nothing is held back by the bridge: completes at once.
    pub fn poll_flush(&mut self) -> (r: Poll<Result<(), FsError>>)
        ensures
            r matches Poll::Ready(Ok(_)),
            *final(self) == *old(self),
    {
        Poll::Ready(Ok(()))
    }

    /// Completes at once. The handle stays open until it is closed.
    pub fn poll_shutdown(&mut self) -> (r: Poll<Result<(), FsError>>)
        ensures
            r matches Poll::Ready(Ok(_)),
            *final(self) == *old(self),
    {
        Poll::Ready(Ok(()))
    }

    /// Moves the cursor. The seek is done when this returns. If the backend
    /// reports a new position, the file keeps it for [`Self::poll_complete`];
    /// if the backend fails, the kept position stays as it was.
    pub fn start_seek<B: FsCallbacks>(&mut self, fs: &mut ProxyFileSystem<B>, position: SeekFrom) -> (r:
        Result<(), FsError>)
        requires
            old(fs).wf(),
        ensures
            final(fs).wf(),
            final(self).handle == old(self).handle,
            exists|got: Result<u64, FsError>| #[trigger]
                old(fs).callbacks.handle_seek_post(
                    &final(fs).callbacks,
                    old(self).handle,
                    position,
                    got,
                ) && r == unit_of(got) && final(self).position == position_after(
                    old(self).position,
                    got,
                ),
    {
        let got = fs.callbacks.handle_seek(self.handle, position);
        let ghost seen = got;
        let r = match got {
            Ok(reached) => {
                self.position = reached;
                Ok(())
            },
            Err(e) => Err(e),
        };
        assert(old(fs).callbacks.handle_seek_post(&fs.callbacks, self.handle, position, seen) && r
            == unit_of(seen) && self.position == position_after(old(self).position, seen));
        r
    }

    /// A seek is always complete: reports, on the first poll, the position
    /// that the last successful seek reached.
    pub fn poll_complete(&mut self) -> (r: Poll<Result<u64, FsError>>)
        ensures
            r matches Poll::Ready(Ok(n)) && n == old(self).position,
            *final(self) == *old(self),
    {
        Poll::Ready(Ok(self.position))
    }

    /// Closes the file. The backend is asked to close the handle once; if it
    /// fails, the failure is dropped.
    pub fn close<B: FsCallbacks>(self, fs: &mut ProxyFileSystem<B>)
        requires
            old(fs).wf(),
        ensures
            final(fs).wf(),
            exists|got: Result<(), FsError>| #[trigger]
                old(fs).callbacks.handle_close_post(&final(fs).callbacks, self.handle, got),
    {
        let got = fs.callbacks.handle_close(self.handle);
        assert(old(fs).callbacks.handle_close_post(&fs.callbacks, self.handle, got));
    }
}

/// The position a file keeps after a seek that gave `got`: the new position
/// if the seek succeeded, the one it had before if not.
pub open spec fn position_after(before: u64, got: Result<u64, FsError>) -> u64 {
    match got {
        Ok(reached) => reached,
        Err(_) => before,
    }
}

/// The result of a seek without the position.
pub open spec fn unit_of(r: Result<u64, FsError>) -> Result<(), FsError> {
    match r {
        Ok(_) => Ok(()),
        Err(e) => Err(e),
    }
}

} // verus!

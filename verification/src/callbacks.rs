//! The backend port: the operations a filesystem backend provides.

use vstd::prelude::*;
use crate::error::FsError;
use crate::types::{DirEntry, FsMetadata, OpenFlags, SeekFrom};

verus! {

/// The set of operations that the bridge forwards to.
///
/// A backend may keep its files in memory, on a host reached through
/// callbacks, or anywhere else. Every operation is synchronous. For each
/// operation the backend says, in a predicate of its own, which results it
/// may return and which state it may be in afterwards; the bridge promises
/// its callers exactly that, and nothing more. A backend that does not say
/// anything keeps the predicates given here, which hold of every result: of
/// such a backend nothing is known.
pub trait FsCallbacks: Sized {
    /// The backend's own consistency condition. Every operation needs it and
    /// keeps it.
    open spec fn wf(&self) -> bool {
        true
    }

    /// `r` is what reading the whole file at `path` gives.
    open spec fn read_file_post(&self, path: Seq<char>, r: Result<Vec<u8>, FsError>) -> bool {
        true
    }

    /// `r` is what asking for the metadata of `path` gives.
    open spec fn metadata_post(&self, path: Seq<char>, r: Result<FsMetadata, FsError>) -> bool {
        true
    }

    /// `r` is what listing the directory `path` gives.
    open spec fn read_dir_post(&self, path: Seq<char>, r: Result<Vec<DirEntry>, FsError>) -> bool {
        true
    }

    /// Replacing the file at `path` with `bytes` gives `r` and leads to `after`.
    open spec fn write_file_post(
        &self,
        after: &Self,
        path: Seq<char>,
        bytes: Seq<u8>,
        r: Result<(), FsError>,
    ) -> bool {
        true
    }

    /// Creating the directory `path` gives `r` and leads to `after`.
    open spec fn create_dir_post(&self, after: &Self, path: Seq<char>, r: Result<(), FsError>) -> bool {
        true
    }

    /// Removing the directory `path` gives `r` and leads to `after`.
    open spec fn remove_dir_post(&self, after: &Self, path: Seq<char>, r: Result<(), FsError>) -> bool {
        true
    }

    /// Removing the file `path` gives `r` and leads to `after`.
    open spec fn remove_file_post(&self, after: &Self, path: Seq<char>, r: Result<(), FsError>) -> bool {
        true
    }

    /// Renaming `from` to `to` gives `r` and leads to `after`.
    open spec fn rename_post(
        &self,
        after: &Self,
        from: Seq<char>,
        to: Seq<char>,
        r: Result<(), FsError>,
    ) -> bool {
        true
    }

    /// Opening `path` with `flags` gives `r` and leads to `after`.
    open spec fn open_post(
        &self,
        after: &Self,
        path: Seq<char>,
        flags: OpenFlags,
        r: Result<u64, FsError>,
    ) -> bool {
        true
    }

    /// Reading at most `max_len` bytes from `handle` gives `r` and leads to `after`.
    open spec fn handle_read_post(
        &self,
        after: &Self,
        handle: u64,
        max_len: usize,
        r: Result<Vec<u8>, FsError>,
    ) -> bool {
        true
    }

    /// Writing `bytes` to `handle` gives `r` and leads to `after`.
    open spec fn handle_write_post(
        &self,
        after: &Self,
        handle: u64,
        bytes: Seq<u8>,
        r: Result<usize, FsError>,
    ) -> bool {
        true
    }

    /// Seeking on `handle` gives `r` and leads to `after`.
    open spec fn handle_seek_post(
        &self,
        after: &Self,
        handle: u64,
        pos: SeekFrom,
        r: Result<u64, FsError>,
    ) -> bool {
        true
    }

    /// Closing `handle` gives `r` and leads to `after`.
    open spec fn handle_close_post(&self, after: &Self, handle: u64, r: Result<(), FsError>) -> bool {
        true
    }

    /// Reads the whole file at `path`.
    fn read_file(&self, path: &str) -> (r: Result<Vec<u8>, FsError>)
        requires
            self.wf(),
        ensures
            self.read_file_post(path@, r),
    ;

    /// Replaces the file at `path` with `bytes`, creating it if need be.
    fn write_file(&mut self, path: &str, bytes: &[u8]) -> (r: Result<(), FsError>)
        requires
            old(self).wf(),
        ensures
            final(self).wf(),
            old(self).write_file_post(final(self), path@, bytes@, r),
    ;

    /// Reports the metadata of the entry at `path`.
    fn metadata(&self, path: &str) -> (r: Result<FsMetadata, FsError>)
        requires
            self.wf(),
        ensures
            self.metadata_post(path@, r),
    ;

    /// Lists the directory at `path`, with bare names.
    fn read_dir(&self, path: &str) -> (r: Result<Vec<DirEntry>, FsError>)
        requires
            self.wf(),
        ensures
            self.read_dir_post(path@, r),
    ;

    /// Creates a directory at `path`.
    fn create_dir(&mut self, path: &str) -> (r: Result<(), FsError>)
        requires
            old(self).wf(),
        ensures
            final(self).wf(),
            old(self).create_dir_post(final(self), path@, r),
    ;

    /// Removes the directory at `path`.
    fn remove_dir(&mut self, path: &str) -> (r: Result<(), FsError>)
        requires
            old(self).wf(),
        ensures
            final(self).wf(),
            old(self).remove_dir_post(final(self), path@, r),
    ;

    /// Removes the file at `path`.
    fn remove_file(&mut self, path: &str) -> (r: Result<(), FsError>)
        requires
            old(self).wf(),
        ensures
            final(self).wf(),
            old(self).remove_file_post(final(self), path@, r),
    ;

    /// Moves the entry at `from` to `to`, in one step.
    fn rename(&mut self, from: &str, to: &str) -> (r: Result<(), FsError>)
        requires
            old(self).wf(),
        ensures
            final(self).wf(),
            old(self).rename_post(final(self), from@, to@, r),
    ;

    /// Opens the file at `path` and returns the identifier of the new handle.
    fn open(&mut self, path: &str, flags: &OpenFlags) -> (r: Result<u64, FsError>)
        requires
            old(self).wf(),
        ensures
            final(self).wf(),
            old(self).open_post(final(self), path@, *flags, r),
    ;

    /// Reads at most `max_len` bytes from the handle's cursor on.
    fn handle_read(&mut self, handle: u64, max_len: usize) -> (r: Result<Vec<u8>, FsError>)
        requires
            old(self).wf(),
        ensures
            final(self).wf(),
            old(self).handle_read_post(final(self), handle, max_len, r),
    ;

    /// Writes `bytes` at the handle's cursor and returns how many were written.
    fn handle_write(&mut self, handle: u64, bytes: &[u8]) -> (r: Result<usize, FsError>)
        requires
            old(self).wf(),
        ensures
            final(self).wf(),
            old(self).handle_write_post(final(self), handle, bytes@, r),
    ;

    /// Moves the handle's cursor and returns its new position.
    fn handle_seek(&mut self, handle: u64, pos: SeekFrom) -> (r: Result<u64, FsError>)
        requires
            old(self).wf(),
        ensures
            final(self).wf(),
            old(self).handle_seek_post(final(self), handle, pos, r),
    ;

    /// Closes the handle.
    fn handle_close(&mut self, handle: u64) -> (r: Result<(), FsError>)
        requires
            old(self).wf(),
        ensures
            final(self).wf(),
            old(self).handle_close_post(final(self), handle, r),
    ;
}

} // verus!

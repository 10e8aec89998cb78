//! The table of open files.
//!
//! Every open file has an identifier, the path it was opened on, a buffer
//! that holds the file's bytes as they were when it was opened, and a
//! cursor. Identifiers count upwards and are never handed out twice.

use std::collections::HashMap;
use vstd::prelude::*;
use vstd::slice::{slice_subrange, slice_to_vec};
use vstd::string::*;
use crate::error::FsError;
use crate::types::SeekFrom;

verus! {

broadcast use vstd::std_specs::hash::group_hash_axioms;

/// A position that left the range of a `u64` comes back in at the other end.
pub open spec fn wrapped(position: int) -> u64 {
    if position > u64::MAX {
        (position - 0x1_0000_0000_0000_0000) as u64
    } else if position < 0 {
        (position + 0x1_0000_0000_0000_0000) as u64
    } else {
        position as u64
    }
}

/// The mathematical value of one open file.
pub struct HandleState {
    pub path: Seq<char>,
    pub buffer: Seq<u8>,
    pub cursor: u64,
}

impl HandleState {
    /// A file just opened on `path` with the bytes `content`.
    pub open spec fn fresh(path: Seq<char>, content: Seq<u8>) -> HandleState {
        HandleState { path, buffer: content, cursor: 0 }
    }

    /// Where a read starts: at the cursor, or at the end of the buffer if the
    /// cursor lies beyond it.
    pub open spec fn read_start(self) -> int {
        if self.cursor <= self.buffer.len() {
            self.cursor as int
        } else {
            self.buffer.len() as int
        }
    }

    /// Where a read of at most `max_len` bytes ends.
    pub open spec fn read_end(self, max_len: usize) -> int {
        if self.cursor + max_len <= self.buffer.len() {
            self.cursor + max_len
        } else {
            self.buffer.len() as int
        }
    }

    /// The bytes that a read of at most `max_len` bytes serves.
    pub open spec fn read_bytes(self, max_len: usize) -> Seq<u8> {
        self.buffer.subrange(self.read_start(), self.read_end(max_len))
    }

    /// The file after a read: the cursor has moved past the bytes served.
    pub open spec fn after_read(self, max_len: usize) -> HandleState {
        HandleState { cursor: (self.cursor + self.read_bytes(max_len).len()) as u64, ..self }
    }

    /// A write of `bytes` at the cursor ends at an addressable position.
    pub open spec fn write_fits(self, bytes: Seq<u8>) -> bool {
        self.cursor + bytes.len() <= usize::MAX
    }

    /// The buffer after `bytes` were written at the cursor: long enough to
    /// hold them, zero where neither the old buffer nor `bytes` reach, and
    /// unchanged outside the written range.
    pub open spec fn written(self, bytes: Seq<u8>) -> Seq<u8> {
        let end = self.cursor + bytes.len();
        let len = if end > self.buffer.len() {
            end
        } else {
            self.buffer.len() as int
        };
        Seq::new(
            len as nat,
            |i: int|
                if self.cursor <= i < end {
                    bytes[i - self.cursor]
                } else if i < self.buffer.len() {
                    self.buffer[i]
                } else {
                    0u8
                },
        )
    }

    /// The file after a write: the buffer holds the bytes and the cursor has
    /// moved past them.
    pub open spec fn after_write(self, bytes: Seq<u8>) -> HandleState {
        HandleState {
            buffer: self.written(bytes),
            cursor: (self.cursor + bytes.len()) as u64,
            ..self
        }
    }

    /// The position a seek moves the cursor to. Offsets are added without
    /// clamping: a result below zero or above `u64::MAX` wraps around.
    pub open spec fn seek_target(self, pos: SeekFrom) -> u64 {
        match pos {
            SeekFrom::Start(n) => n,
            SeekFrom::Current(offset) => wrapped(self.cursor + offset),
            SeekFrom::End(offset) => wrapped(self.buffer.len() + offset),
        }
    }

    /// The file after a seek.
    pub open spec fn after_seek(self, pos: SeekFrom) -> HandleState {
        HandleState { cursor: self.seek_target(pos), ..self }
    }
}

/// The mathematical value of the table: the open files by identifier, and the
/// identifier that the next open will get.
pub struct TableState {
    pub open: Map<u64, HandleState>,
    pub next_id: u64,
}

impl TableState {
    /// The table before anything was opened. Identifiers start at one.
    pub open spec fn empty() -> TableState {
        TableState { open: Map::empty(), next_id: 1 }
    }

    /// Every identifier in use was handed out before, and every buffer is of
    /// a length that fits in memory.
    pub open spec fn wf(self) -> bool {
        forall|id: u64|
            #![trigger self.open.contains_key(id)]
            self.open.contains_key(id) ==> id < self.next_id && self.open[id].buffer.len()
                <= usize::MAX
    }

    /// There is an identifier left to hand out.
    pub open spec fn can_allocate(self) -> bool {
        self.next_id < u64::MAX
    }

    /// The table after a file was opened on `path` with the bytes `content`.
    pub open spec fn opened(self, path: Seq<char>, content: Seq<u8>) -> TableState {
        TableState {
            open: self.open.insert(self.next_id, HandleState::fresh(path, content)),
            next_id: (self.next_id + 1) as u64,
        }
    }

    /// The table after the file `id` changed to `file`.
    pub open spec fn replaced(self, id: u64, file: HandleState) -> TableState {
        TableState { open: self.open.insert(id, file), ..self }
    }

    /// The table after a read of at most `max_len` bytes from `id`.
    pub open spec fn after_read(self, id: u64, max_len: usize) -> TableState {
        self.replaced(id, self.open[id].after_read(max_len))
    }

    /// The table after `bytes` were written to `id`.
    pub open spec fn after_write(self, id: u64, bytes: Seq<u8>) -> TableState {
        self.replaced(id, self.open[id].after_write(bytes))
    }

    /// The table after a seek on `id`.
    pub open spec fn after_seek(self, id: u64, pos: SeekFrom) -> TableState {
        self.replaced(id, self.open[id].after_seek(pos))
    }

    /// The table after `id` was closed.
    pub open spec fn after_close(self, id: u64) -> TableState {
        TableState { open: self.open.remove(id), ..self }
    }
}

/// One call on the table.
pub enum TableOp {
    Open { path: Seq<char>, content: Seq<u8> },
    Read { id: u64, max_len: usize },
    Write { id: u64, bytes: Seq<u8> },
    Seek { id: u64, pos: SeekFrom },
    Close { id: u64 },
}

impl TableOp {
    /// The bytes that an open starts with are of a length that fits in memory.
    pub open spec fn wf(self) -> bool {
        self matches TableOp::Open { content, .. } ==> content.len() <= usize::MAX
    }
}

impl TableState {
    /// The identifier that a call hands out: the next one for an open that
    /// succeeds, none for any other call.
    pub open spec fn issued(self, op: TableOp) -> Option<u64> {
        match op {
            TableOp::Open { .. } => if self.can_allocate() {
                Some(self.next_id)
            } else {
                None
            },
            _ => None,
        }
    }

    /// The table after one call. A call that fails leaves the table as it was.
    pub open spec fn step(self, op: TableOp) -> TableState {
        match op {
            TableOp::Open { path, content } => if self.can_allocate() {
                self.opened(path, content)
            } else {
                self
            },
            TableOp::Read { id, max_len } => if self.open.contains_key(id) {
                self.after_read(id, max_len)
            } else {
                self
            },
            TableOp::Write { id, bytes } => if self.open.contains_key(id)
                && self.open[id].write_fits(bytes) {
                self.after_write(id, bytes)
            } else {
                self
            },
            TableOp::Seek { id, pos } => if self.open.contains_key(id) {
                self.after_seek(id, pos)
            } else {
                self
            },
            TableOp::Close { id } => self.after_close(id),
        }
    }

    /// The table after a sequence of calls, made in order.
    pub open spec fn run(self, ops: Seq<TableOp>) -> TableState
        decreases ops.len(),
    {
        if ops.len() == 0 {
            self
        } else {
            self.run(ops.drop_last()).step(ops.last())
        }
    }
}

/// The message of the failure to open a file when no identifier is left.
pub open spec fn ids_exhausted_message() -> Seq<char> {
    "handle identifiers exhausted"@
}

/// The message of the failure to write past the largest addressable position.
pub open spec fn write_too_large_message() -> Seq<char> {
    "write reaches past the addressable range"@
}

/// One open file.
struct Handle {
    path: String,
    buffer: Vec<u8>,
    cursor: u64,
}

impl View for Handle {
    type V = HandleState;

    closed spec fn view(&self) -> HandleState {
        HandleState { path: self.path@, buffer: self.buffer@, cursor: self.cursor }
    }
}

/// The table of open files.
pub struct HandleTable {
    handles: HashMap<u64, Handle>,
    next_id: u64,
}

impl View for HandleTable {
    type V = TableState;

    closed spec fn view(&self) -> TableState {
        TableState {
            open: Map::new(
                |id: u64| self.handles@.contains_key(id),
                |id: u64| self.handles@[id]@,
            ),
            next_id: self.next_id,
        }
    }
}

impl HandleTable {
    /// The representation is sound.
    pub open spec fn wf(&self) -> bool {
        self@.wf()
    }

    /// A table with no open file.
    pub fn new() -> (r: HandleTable)
        ensures
            r.wf(),
            r@ == TableState::empty(),
    {
        let r = HandleTable { handles: HashMap::new(), next_id: 1 };
        assert(r@.open =~= Map::<u64, HandleState>::empty());
        r
    }

    /// Whether `id` names an open file.
    pub fn is_open(&self, id: u64) -> (r: bool)
        ensures
            r == self@.open.contains_key(id),
    {
        self.handles.contains_key(&id)
    }

    /// The cursor of the open file `id`.
    pub fn cursor(&self, id: u64) -> (r: Option<u64>)
        ensures
            match r {
                Some(c) => self@.open.contains_key(id) && c == self@.open[id].cursor,
                None => !self@.open.contains_key(id),
            },
    {
        match self.handles.get(&id) {
            Some(h) => Some(h.cursor),
            None => None,
        }
    }

    /// The identifier that the next open will get.
    pub fn next_id(&self) -> (r: u64)
        ensures
            r == self@.next_id,
    {
        self.next_id
    }

    /// The path and the whole buffer of the open file `id`.
    pub fn snapshot(&self, id: u64) -> (r: Option<(String, Vec<u8>)>)
        ensures
            match r {
                Some((path, buffer)) => {
                    &&& self@.open.contains_key(id)
                    &&& path@ == self@.open[id].path
                    &&& buffer@ == self@.open[id].buffer
                },
                None => !self@.open.contains_key(id),
            },
    {
        match self.handles.get(&id) {
            Some(h) => Some((h.path.clone(), slice_to_vec(h.buffer.as_slice()))),
            None => None,
        }
    }

    /// Opens a file on `path` whose bytes are `content`, with the cursor at
    /// the start, under an identifier that was never used before.
    ///
    /// Fails only when every identifier has been handed out; the table is
    /// then left as it was.
    pub fn open(&mut self, path: &str, content: Vec<u8>) -> (r: Result<u64, FsError>)
        requires
            old(self).wf(),
        ensures
            final(self).wf(),
            match r {
                Ok(id) => {
                    &&& old(self)@.can_allocate()
                    &&& id == old(self)@.next_id
                    &&& final(self)@ == old(self)@.opened(path@, content@)
                },
                Err(e) => {
                    &&& !old(self)@.can_allocate()
                    &&& e.is_backend_error(ids_exhausted_message())
                    &&& final(self)@ == old(self)@
                },
            },
            final(self)@ == old(self)@.step(TableOp::Open { path: path@, content: content@ }),
            r.ok() == old(self)@.issued(TableOp::Open { path: path@, content: content@ }),
    {
        if self.next_id == u64::MAX {
            return Err(FsError::BackendError(String::from_str("handle identifiers exhausted")));
        }
        let id = self.next_id;
        assert(content@.len() <= usize::MAX) by {
            assert(content.len() == content@.len());
        }
        let handle = Handle { path: String::from_str(path), buffer: content, cursor: 0 };
        self.handles.insert(id, handle);
        self.next_id = id + 1;
        assert(self@.open =~= old(self)@.opened(path@, content@).open);
        Ok(id)
    }

    /// Serves at most `max_len` bytes from the buffer of `id`, starting at
    /// the cursor, and moves the cursor past them.
    pub fn read(&mut self, id: u64, max_len: usize) -> (r: Result<Vec<u8>, FsError>)
        requires
            old(self).wf(),
        ensures
            final(self).wf(),
            match r {
                Ok(bytes) => {
                    &&& old(self)@.open.contains_key(id)
                    &&& bytes@ == old(self)@.open[id].read_bytes(max_len)
                    &&& final(self)@ == old(self)@.after_read(id, max_len)
                },
                Err(e) => {
                    &&& !old(self)@.open.contains_key(id)
                    &&& e is InvalidHandle
                    &&& final(self)@ == old(self)@
                },
            },
            final(self)@ == old(self)@.step(TableOp::Read { id, max_len }),
    {
        let mut handle = match self.handles.remove(&id) {
            Some(h) => h,
            None => {
                assert(self@.open =~= old(self)@.open);
                return Err(FsError::InvalidHandle);
            },
        };
        let ghost before = handle@;
        let len = handle.buffer.len();
        let start = if handle.cursor >= len as u64 {
            len
        } else {
            handle.cursor as usize
        };
        let room = len - start;
        let take = if max_len < room {
            max_len
        } else {
            room
        };
        let bytes = slice_to_vec(slice_subrange(handle.buffer.as_slice(), start, start + take));
        handle.cursor = handle.cursor + take as u64;
        assert(handle@ == before.after_read(max_len));
        self.handles.insert(id, handle);
        assert(self@.open =~= old(self)@.after_read(id, max_len).open);
        Ok(bytes)
    }

    /// Writes `bytes` into the buffer of `id` at the cursor and moves the
    /// cursor past them. The buffer grows as needed; a gap between its old
    /// end and the cursor is filled with zeros.
    ///
    /// Returns how many bytes were written, which is all of them. A write
    /// that would end past the largest addressable position changes nothing.
    pub fn write(&mut self, id: u64, bytes: &[u8]) -> (r: Result<usize, FsError>)
        requires
            old(self).wf(),
        ensures
            final(self).wf(),
            match r {
                Ok(n) => {
                    &&& old(self)@.open.contains_key(id)
                    &&& old(self)@.open[id].write_fits(bytes@)
                    &&& n == bytes@.len()
                    &&& final(self)@ == old(self)@.after_write(id, bytes@)
                },
                Err(e) => {
                    &&& final(self)@ == old(self)@
                    &&& if old(self)@.open.contains_key(id) {
                        &&& !old(self)@.open[id].write_fits(bytes@)
                        &&& e.is_backend_error(write_too_large_message())
                    } else {
                        e is InvalidHandle
                    }
                },
            },
            final(self)@ == old(self)@.step(TableOp::Write { id, bytes: bytes@ }),
    {
        let n = bytes.len();
        let fits = match self.handles.get(&id) {
            Some(h) => h.cursor <= usize::MAX as u64 && h.cursor as usize <= usize::MAX - n,
            None => {
                return Err(FsError::InvalidHandle);
            },
        };
        if !fits {
            return Err(
                FsError::BackendError(String::from_str("write reaches past the addressable range")),
            );
        }
        let mut handle = match self.handles.remove(&id) {
            Some(h) => h,
            None => {
                return Err(FsError::InvalidHandle);
            },
        };
        let ghost before = handle@;
        let start = handle.cursor as usize;
        let end = start + n;
        if end > handle.buffer.len() {
            handle.buffer.resize(end, 0);
        }
        let ghost grown = handle.buffer@;
        assert(forall|i: int| 0 <= i < grown.len() ==> grown[i] == if i < before.buffer.len() {
            before.buffer[i]
        } else {
            0u8
        }) by {
            if end > before.buffer.len() {
                assert forall|i: int| 0 <= i < before.buffer.len() implies grown[i]
                    == before.buffer[i] by {
                    assert(grown.subrange(0, before.buffer.len() as int)[i] == grown[i]);
                }
            }
        }
        let mut j: usize = 0;
        while j < n
            invariant
                n == bytes@.len(),
                end == start + n,
                start == before.cursor,
                handle.buffer@.len() == grown.len(),
                end <= grown.len(),
                0 <= j <= n,
                handle.path@ == before.path,
                handle.cursor == before.cursor,
                forall|i: int|
                    0 <= i < grown.len() ==> #[trigger] handle.buffer@[i] == if start <= i < start
                        + j {
                        bytes@[i - start]
                    } else {
                        grown[i]
                    },
            decreases n - j,
        {
            handle.buffer[start + j] = bytes[j];
            j += 1;
        }
        handle.cursor = end as u64;
        assert(handle.buffer@ =~= before.written(bytes@));
        assert(handle@ == before.after_write(bytes@));
        self.handles.insert(id, handle);
        assert(self@.open =~= old(self)@.after_write(id, bytes@).open);
        Ok(n)
    }

    /// Moves the cursor of `id` and returns its new position.
    pub fn seek(&mut self, id: u64, pos: SeekFrom) -> (r: Result<u64, FsError>)
        requires
            old(self).wf(),
        ensures
            final(self).wf(),
            match r {
                Ok(position) => {
                    &&& old(self)@.open.contains_key(id)
                    &&& position == old(self)@.open[id].seek_target(pos)
                    &&& final(self)@ == old(self)@.after_seek(id, pos)
                },
                Err(e) => {
                    &&& !old(self)@.open.contains_key(id)
                    &&& e is InvalidHandle
                    &&& final(self)@ == old(self)@
                },
            },
            final(self)@ == old(self)@.step(TableOp::Seek { id, pos }),
    {
        let mut handle = match self.handles.remove(&id) {
            Some(h) => h,
            None => {
                assert(self@.open =~= old(self)@.open);
                return Err(FsError::InvalidHandle);
            },
        };
        let ghost before = handle@;
        let position = match pos {
            SeekFrom::Start(n) => n,
            SeekFrom::Current(offset) => handle.cursor.wrapping_add_signed(offset),
            SeekFrom::End(offset) => (handle.buffer.len() as u64).wrapping_add_signed(offset),
        };
        handle.cursor = position;
        assert(handle@ == before.after_seek(pos));
        self.handles.insert(id, handle);
        assert(self@.open =~= old(self)@.after_seek(id, pos).open);
        Ok(position)
    }

    /// Closes `id`. Its identifier is not used again.
    pub fn close(&mut self, id: u64) -> (r: Result<(), FsError>)
        requires
            old(self).wf(),
        ensures
            final(self).wf(),
            final(self)@ == old(self)@.after_close(id),
            final(self)@ == old(self)@.step(TableOp::Close { id }),
            match r {
                Ok(_) => old(self)@.open.contains_key(id),
                Err(e) => !old(self)@.open.contains_key(id) && e is InvalidHandle,
            },
    {
        let removed = self.handles.remove(&id);
        assert(self@.open =~= old(self)@.after_close(id).open);
        match removed {
            Some(_) => Ok(()),
            None => Err(FsError::InvalidHandle),
        }
    }
}

} // verus!

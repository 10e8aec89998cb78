//! What holds of the local backend and its handle table, whatever the state
//! and the arguments.

use vstd::prelude::*;
use crate::error::FsError;
use crate::handle::{HandleState, TableOp, TableState};
use crate::local::LocalState;
use crate::types::FsMetadata;

verus! {

/// A file that was written and then opened reads back as written: the new
/// handle starts at the first byte, a read of at most `max_len` bytes gives
/// the first `max_len` bytes, and a read that asks for at least the file's
/// length gives exactly the bytes that were written.
pub proof fn law_round_trip(s: LocalState, path: Seq<char>, bytes: Seq<u8>, max_len: usize)
    ensures
        ({
            let written = s.wrote_file(path, bytes);
            let id = written.table.next_id;
            let file = written.opened(path).table.open[id];
            let served = if max_len <= bytes.len() {
                max_len as int
            } else {
                bytes.len() as int
            };
            &&& file == HandleState::fresh(path, bytes)
            &&& file.read_bytes(max_len) == bytes.subrange(0, served)
            &&& max_len >= bytes.len() ==> file.read_bytes(max_len) == bytes
            &&& file.after_read(max_len).cursor == served
        }),
{
    let written = s.wrote_file(path, bytes);
    let id = written.table.next_id;
    let file = written.opened(path).table.open[id];
    assert(file == HandleState::fresh(path, bytes));
    if max_len >= bytes.len() {
        assert(file.read_bytes(max_len) =~= bytes);
    }
}

/// A write through a handle is persisted at once: the file at the handle's
/// path becomes the handle's whole buffer, which holds `bytes` where the
/// cursor stood. A handle opened afterwards on that path starts with this
/// buffer. Every other handle that was already open keeps the buffer and
/// the cursor it had.
pub proof fn law_write_through(s: LocalState, handle: u64, bytes: Seq<u8>, other: u64)
    requires
        s.table.open.contains_key(handle),
        s.table.open[handle].write_fits(bytes),
    ensures
        ({
            let before = s.table.open[handle];
            let after = s.after_write(handle, bytes);
            let image = after.table.open[handle].buffer;
            &&& after.files.contains_key(before.path)
            &&& after.files[before.path] == image
            &&& image.subrange(before.cursor as int, before.cursor + bytes.len()) == bytes
            &&& after.opened(before.path).table.open[after.table.next_id] == HandleState::fresh(
                before.path,
                image,
            )
            &&& other != handle && s.table.open.contains_key(other) ==> after.table.open[other]
                == s.table.open[other]
        }),
{
    let before = s.table.open[handle];
    let after = s.after_write(handle, bytes);
    let image = after.table.open[handle].buffer;
    assert(image == before.written(bytes));
    assert(image.subrange(before.cursor as int, before.cursor + bytes.len()) =~= bytes);
}

/// After a file was removed, asking for its metadata fails with `NotFound`,
/// whether or not the file existed.
pub proof fn law_remove_then_metadata(s: LocalState, path: Seq<char>)
    ensures
        s.removed_file(path).metadata_of(path) == Err::<FsMetadata, FsError>(FsError::NotFound),
{
}

/// After an existing file was renamed to another path, the old path is gone
/// and the new path holds the bytes, and reports the metadata, that the old
/// path had.
pub proof fn law_rename(s: LocalState, from: Seq<char>, to: Seq<char>)
    requires
        s.files.contains_key(from),
        from != to,
    ensures
        s.renamed(from, to).metadata_of(from) == Err::<FsMetadata, FsError>(FsError::NotFound),
        s.renamed(from, to).metadata_of(to) == s.metadata_of(from),
        s.renamed(from, to).files[to] == s.files[from],
{
}

/// Renaming an existing file to its own path keeps it as it is.
pub proof fn law_rename_onto_itself(s: LocalState, path: Seq<char>)
    requires
        s.files.contains_key(path),
    ensures
        s.renamed(path, path).files == s.files,
        s.renamed(path, path).metadata_of(path) == s.metadata_of(path),
{
    assert(s.renamed(path, path).files =~= s.files);
}

/// Every call of a sequence is one that can be made.
pub open spec fn all_wf(ops: Seq<TableOp>) -> bool {
    forall|k: int| 0 <= k < ops.len() ==> (#[trigger] ops[k]).wf()
}

/// No call breaks the table: identifiers in use stay below the next one, and
/// the next one never goes down.
pub proof fn law_step_keeps_table_sound(s: TableState, op: TableOp)
    requires
        s.wf(),
        op.wf(),
    ensures
        s.step(op).wf(),
        s.step(op).next_id >= s.next_id,
        s.issued(op) matches Some(id) ==> s.step(op).next_id > id && !s.open.contains_key(id),
{
    if s.issued(op) is Some {
        assert(!s.open.contains_key(s.next_id));
    }
}

/// The same, for a whole sequence of calls.
pub proof fn law_run_keeps_table_sound(s: TableState, ops: Seq<TableOp>)
    requires
        s.wf(),
        all_wf(ops),
    ensures
        s.run(ops).wf(),
        s.run(ops).next_id >= s.next_id,
    decreases ops.len(),
{
    if ops.len() > 0 {
        law_run_keeps_table_sound(s, ops.drop_last());
        law_step_keeps_table_sound(s.run(ops.drop_last()), ops.last());
    }
}

/// The table as it is just before the call at index `at` of `ops`.
pub open spec fn state_before(s: TableState, ops: Seq<TableOp>, at: int) -> TableState {
    s.run(ops.subrange(0, at))
}

/// Running a longer prefix never lowers the next identifier.
proof fn lemma_next_id_grows(s: TableState, ops: Seq<TableOp>, i: int, j: int)
    requires
        s.wf(),
        all_wf(ops),
        0 <= i <= j <= ops.len(),
    ensures
        state_before(s, ops, i).wf(),
        state_before(s, ops, j).wf(),
        state_before(s, ops, i).next_id <= state_before(s, ops, j).next_id,
    decreases j - i,
{
    law_run_keeps_table_sound(s, ops.subrange(0, i));
    law_run_keeps_table_sound(s, ops.subrange(0, j));
    if i < j {
        lemma_next_id_grows(s, ops, i, j - 1);
        let longer = ops.subrange(0, j);
        assert(longer.drop_last() =~= ops.subrange(0, j - 1));
        assert(longer.last() == ops[j - 1]);
        law_step_keeps_table_sound(state_before(s, ops, j - 1), ops[j - 1]);
    }
}

/// Identifiers are never handed out twice. In any sequence of calls on a
/// sound table, whatever is opened, read, written, sought or closed in
/// between, a later open gets a larger identifier than an earlier one, and
/// no open gets an identifier that was in use, or could have been handed
/// out, before the sequence began.
pub proof fn law_handles_unique(s: TableState, ops: Seq<TableOp>, first: int, second: int)
    requires
        s.wf(),
        all_wf(ops),
        0 <= first < second < ops.len(),
        state_before(s, ops, first).issued(ops[first]) is Some,
        state_before(s, ops, second).issued(ops[second]) is Some,
    ensures
        state_before(s, ops, first).issued(ops[first])->0 < state_before(s, ops, second).issued(
            ops[second],
        )->0,
        state_before(s, ops, first).issued(ops[first])->0 >= s.next_id,
        !s.open.contains_key(state_before(s, ops, first).issued(ops[first])->0),
{
    lemma_next_id_grows(s, ops, 0, first);
    assert(ops.subrange(0, 0) =~= Seq::<TableOp>::empty());
    lemma_next_id_grows(s, ops, first + 1, second);
    let longer = ops.subrange(0, first + 1);
    assert(longer.drop_last() =~= ops.subrange(0, first));
    assert(longer.last() == ops[first]);
    law_step_keeps_table_sound(state_before(s, ops, first), ops[first]);
}

} // verus!

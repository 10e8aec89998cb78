//! The backing store of the local backend: whole files, found by path.
//!
//! The files are kept in a list that is searched in order, with paths
//! compared character by character. A hash map keyed by the path would find
//! a file faster, but nothing can be proved of one whose keys are strings.

use vstd::prelude::*;
use vstd::slice::slice_to_vec;
use vstd::string::*;
use crate::path::str_eq;

verus! {

/// One stored file.
struct FileEntry {
    path: String,
    data: Vec<u8>,
}

/// A flat collection of files. No path is stored twice.
pub struct FileStore {
    entries: Vec<FileEntry>,
}

/// Some entry is stored under `path`.
spec fn has_path(entries: Seq<FileEntry>, path: Seq<char>) -> bool {
    exists|i: int| 0 <= i < entries.len() && (#[trigger] entries[i]).path@ == path
}

/// An index at which `path` is stored.
spec fn position(entries: Seq<FileEntry>, path: Seq<char>) -> int {
    choose|i: int| 0 <= i < entries.len() && (#[trigger] entries[i]).path@ == path
}

/// No two entries share a path.
spec fn distinct(entries: Seq<FileEntry>) -> bool {
    forall|i: int, j: int|
        0 <= i < j < entries.len() ==> (#[trigger] entries[i]).path@ != (#[trigger] entries[j]).path@
}

/// The files that a list of entries holds.
spec fn contents(entries: Seq<FileEntry>) -> Map<Seq<char>, Seq<u8>> {
    Map::new(|path: Seq<char>| has_path(entries, path), |path: Seq<char>| entries[position(entries, path)].data@)
}

/// Under distinct paths, the entry at index `i` is the file stored under its path.
proof fn lemma_entry_is_file(entries: Seq<FileEntry>, i: int)
    requires
        distinct(entries),
        0 <= i < entries.len(),
    ensures
        contents(entries).contains_key(entries[i].path@),
        contents(entries)[entries[i].path@] == entries[i].data@,
{
    let path = entries[i].path@;
    assert(has_path(entries, path));
    let j = position(entries, path);
    assert(0 <= j < entries.len() && entries[j].path@ == path);
    if i != j {
        if i < j {
            assert(entries[i].path@ != entries[j].path@);
        } else {
            assert(entries[j].path@ != entries[i].path@);
        }
    }
}

/// A stored path is the path of some entry.
proof fn lemma_file_is_entry(entries: Seq<FileEntry>, path: Seq<char>) -> (i: int)
    requires
        contents(entries).contains_key(path),
    ensures
        0 <= i < entries.len(),
        entries[i].path@ == path,
{
    position(entries, path)
}

impl FileStore {
    /// The representation is sound: no path is stored twice.
    pub closed spec fn wf(&self) -> bool {
        distinct(self.entries@)
    }

    /// The files in the store, by path.
    pub closed spec fn view(&self) -> Map<Seq<char>, Seq<u8>> {
        contents(self.entries@)
    }

    /// A store without files.
    pub fn new() -> (r: FileStore)
        ensures
            r.wf(),
            r@ == Map::<Seq<char>, Seq<u8>>::empty(),
    {
        let r = FileStore { entries: Vec::new() };
        assert(r@ =~= Map::<Seq<char>, Seq<u8>>::empty());
        r
    }

    /// Where `path` is stored, if it is.
    fn find(&self, path: &str) -> (r: Option<usize>)
        requires
            self.wf(),
        ensures
            match r {
                Some(i) => i < self.entries@.len() && self.entries@[i as int].path@ == path@,
                None => !self@.contains_key(path@),
            },
    {
        let n = self.entries.len();
        let mut i: usize = 0;
        while i < n
            invariant
                n == self.entries@.len(),
                0 <= i <= n,
                forall|k: int| 0 <= k < i ==> (#[trigger] self.entries@[k]).path@ != path@,
            decreases n - i,
        {
            if str_eq(self.entries[i].path.as_str(), path) {
                return Some(i);
            }
            i += 1;
        }
        proof {
            if self@.contains_key(path@) {
                let k = lemma_file_is_entry(self.entries@, path@);
                assert(self.entries@[k].path@ != path@);
            }
        }
        None
    }

    /// Whether a file is stored under `path`.
    pub fn contains(&self, path: &str) -> (r: bool)
        requires
            self.wf(),
        ensures
            r == self@.contains_key(path@),
    {
        match self.find(path) {
            Some(i) => {
                proof {
                    lemma_entry_is_file(self.entries@, i as int);
                }
                true
            },
            None => false,
        }
    }

    /// The length of the file stored under `path`.
    pub fn len_of(&self, path: &str) -> (r: Option<usize>)
        requires
            self.wf(),
        ensures
            match r {
                Some(n) => self@.contains_key(path@) && n == self@[path@].len(),
                None => !self@.contains_key(path@),
            },
    {
        match self.find(path) {
            Some(i) => {
                proof {
                    lemma_entry_is_file(self.entries@, i as int);
                }
                Some(self.entries[i].data.len())
            },
            None => None,
        }
    }

    /// A copy of the file stored under `path`.
    pub fn read(&self, path: &str) -> (r: Option<Vec<u8>>)
        requires
            self.wf(),
        ensures
            match r {
                Some(data) => self@.contains_key(path@) && data@ == self@[path@],
                None => !self@.contains_key(path@),
            },
    {
        match self.find(path) {
            Some(i) => {
                proof {
                    lemma_entry_is_file(self.entries@, i as int);
                }
                Some(slice_to_vec(self.entries[i].data.as_slice()))
            },
            None => None,
        }
    }

    /// Stores `data` under `path`, replacing what was there.
    pub fn insert(&mut self, path: &str, data: Vec<u8>)
        requires
            old(self).wf(),
        ensures
            final(self).wf(),
            final(self)@ == old(self)@.insert(path@, data@),
    {
        let entry = FileEntry { path: String::from_str(path), data };
        let ghost before = self.entries@;
        match self.find(path) {
            Some(i) => {
                self.entries[i] = entry;
                proof {
                    let after = self.entries@;
                    assert(after == before.update(i as int, entry));
                    assert forall|a: int, b: int| 0 <= a < b < after.len() implies (
                    #[trigger] after[a]).path@ != (#[trigger] after[b]).path@ by {
                        assert(after[a].path@ == before[a].path@);
                        assert(after[b].path@ == before[b].path@);
                    }
                    assert forall|p: Seq<char>| #[trigger]
                        contents(after).contains_key(p) == contents(before).insert(
                            path@,
                            data@,
                        ).contains_key(p) by {
                        if contents(after).contains_key(p) {
                            let k = lemma_file_is_entry(after, p);
                            assert(before[k].path@ == p);
                            lemma_entry_is_file(before, k);
                        }
                        if contents(before).contains_key(p) {
                            let k = lemma_file_is_entry(before, p);
                            assert(after[k].path@ == p);
                            lemma_entry_is_file(after, k);
                        }
                        lemma_entry_is_file(after, i as int);
                    }
                    assert forall|p: Seq<char>| #[trigger]
                        contents(after).contains_key(p) implies contents(after)[p] == contents(
                        before,
                    ).insert(path@, data@)[p] by {
                        let k = lemma_file_is_entry(after, p);
                        lemma_entry_is_file(after, k);
                        if k != i {
                            assert(before[k] == after[k]);
                            lemma_entry_is_file(before, k);
                            assert(before[k].path@ != before[i as int].path@);
                        }
                    }
                    assert(contents(after) =~= contents(before).insert(path@, data@));
                }
            },
            None => {
                self.entries.push(entry);
                proof {
                    let after = self.entries@;
                    let n = before.len() as int;
                    assert(after == before.push(entry));
                    assert forall|a: int, b: int| 0 <= a < b < after.len() implies (
                    #[trigger] after[a]).path@ != (#[trigger] after[b]).path@ by {
                        assert(after[a] == before[a]);
                        if b < n {
                            assert(after[b] == before[b]);
                        } else {
                            lemma_entry_is_file(before, a);
                        }
                    }
                    assert forall|p: Seq<char>| #[trigger]
                        contents(after).contains_key(p) == contents(before).insert(
                            path@,
                            data@,
                        ).contains_key(p) by {
                        if contents(after).contains_key(p) {
                            let k = lemma_file_is_entry(after, p);
                            if k < n {
                                assert(before[k] == after[k]);
                                lemma_entry_is_file(before, k);
                            }
                        }
                        if contents(before).contains_key(p) {
                            let k = lemma_file_is_entry(before, p);
                            assert(after[k] == before[k]);
                            lemma_entry_is_file(after, k);
                        }
                        lemma_entry_is_file(after, n);
                    }
                    assert forall|p: Seq<char>| #[trigger]
                        contents(after).contains_key(p) implies contents(after)[p] == contents(
                        before,
                    ).insert(path@, data@)[p] by {
                        let k = lemma_file_is_entry(after, p);
                        lemma_entry_is_file(after, k);
                        if k < n {
                            assert(before[k] == after[k]);
                            lemma_entry_is_file(before, k);
                        }
                    }
                    assert(contents(after) =~= contents(before).insert(path@, data@));
                }
            },
        }
    }

    /// Takes the file stored under `path` out of the store.
    pub fn remove(&mut self, path: &str) -> (r: Option<Vec<u8>>)
        requires
            old(self).wf(),
        ensures
            final(self).wf(),
            final(self)@ == old(self)@.remove(path@),
            match r {
                Some(data) => old(self)@.contains_key(path@) && data@ == old(self)@[path@],
                None => !old(self)@.contains_key(path@),
            },
    {
        let ghost before = self.entries@;
        match self.find(path) {
            Some(i) => {
                let entry = self.entries.remove(i);
                proof {
                    let after = self.entries@;
                    let at = i as int;
                    assert(after == before.remove(at));
                    lemma_entry_is_file(before, at);
                    assert forall|a: int, b: int| 0 <= a < b < after.len() implies (
                    #[trigger] after[a]).path@ != (#[trigger] after[b]).path@ by {
                        let a0 = if a < at { a } else { a + 1 };
                        let b0 = if b < at { b } else { b + 1 };
                        assert(after[a] == before[a0]);
                        assert(after[b] == before[b0]);
                    }
                    assert forall|p: Seq<char>| #[trigger]
                        contents(after).contains_key(p) == contents(before).remove(
                            path@,
                        ).contains_key(p) by {
                        if contents(after).contains_key(p) {
                            let k = lemma_file_is_entry(after, p);
                            let k0 = if k < at { k } else { k + 1 };
                            assert(after[k] == before[k0]);
                            lemma_entry_is_file(before, k0);
                            if k0 < at {
                                assert(before[k0].path@ != before[at].path@);
                            } else {
                                assert(before[at].path@ != before[k0].path@);
                            }
                        }
                        if contents(before).contains_key(p) && p != path@ {
                            let k0 = lemma_file_is_entry(before, p);
                            let k = if k0 < at { k0 } else { k0 - 1 };
                            assert(after[k] == before[k0]);
                            lemma_entry_is_file(after, k);
                        }
                    }
                    assert forall|p: Seq<char>| #[trigger]
                        contents(after).contains_key(p) implies contents(after)[p] == contents(
                        before,
                    ).remove(path@)[p] by {
                        let k = lemma_file_is_entry(after, p);
                        let k0 = if k < at { k } else { k + 1 };
                        assert(after[k] == before[k0]);
                        lemma_entry_is_file(after, k);
                        lemma_entry_is_file(before, k0);
                    }
                    assert(contents(after) =~= contents(before).remove(path@));
                }
                Some(entry.data)
            },
            None => {
                assert(self@ =~= old(self)@.remove(path@));
                None
            },
        }
    }
}

} // verus!

//! Runtime instances and their identifiers.

use vstd::prelude::*;
use crate::callbacks::FsCallbacks;
use crate::proxy::ProxyFileSystem;

verus! {

/// The source of runtime identifiers. Identifiers count up from one and wrap
/// around after `u64::MAX`.
pub struct RuntimeIds {
    next: u64,
}

impl RuntimeIds {
    /// The identifier that the next runtime will get.
    pub closed spec fn next(&self) -> u64 {
        self.next
    }

    /// A source whose first identifier is one.
    pub fn new() -> (r: RuntimeIds)
        ensures
            r.next() == 1,
    {
        RuntimeIds { next: 1 }
    }

    /// Hands out the next identifier.
    pub fn allocate(&mut self) -> (id: u64)
        ensures
            id == old(self).next(),
            final(self).next() == if old(self).next() == u64::MAX {
                0
            } else {
                (old(self).next() + 1) as u64
            },
    {
        let id = self.next;
        self.next = if id == u64::MAX {
            0
        } else {
            id + 1
        };
        id
    }
}

/// A runtime instance. It owns the filesystem it was created with for as
/// long as it lives.
pub struct RuntimeHandle<B: FsCallbacks> {
    id: u64,
    fs: Option<ProxyFileSystem<B>>,
}

impl<B: FsCallbacks> RuntimeHandle<B> {
    /// The identifier of this runtime.
    pub closed spec fn spec_id(&self) -> u64 {
        self.id
    }

    /// The filesystem of this runtime, if it has one.
    pub closed spec fn spec_fs(&self) -> Option<ProxyFileSystem<B>> {
        self.fs
    }

    /// The identifier of this runtime.
    pub fn id(&self) -> (r: u64)
        ensures
            r == self.spec_id(),
    {
        self.id
    }

    /// Whether this runtime has a filesystem.
    pub fn has_fs(&self) -> (r: bool)
        ensures
            r == self.spec_fs().is_some(),
    {
        self.fs.is_some()
    }
}

/// Creates a runtime with the next identifier. With callbacks it gets a
/// filesystem on top of them, without it gets none.
pub fn create_runtime<B: FsCallbacks>(ids: &mut RuntimeIds, fs_callbacks: Option<B>) -> (r:
    RuntimeHandle<B>)
    ensures
        r.spec_id() == old(ids).next(),
        final(ids).next() == if old(ids).next() == u64::MAX {
            0
        } else {
            (old(ids).next() + 1) as u64
        },
        match fs_callbacks {
            Some(callbacks) => r.spec_fs() matches Some(fs) && fs.callbacks == callbacks,
            None => r.spec_fs().is_none(),
        },
{
    let id = ids.allocate();
    let fs = match fs_callbacks {
        Some(callbacks) => Some(ProxyFileSystem::new(callbacks)),
        None => None,
    };
    RuntimeHandle { id, fs }
}

} // verus!

//! The handle context: the single process-wide connection to the storage
//! management subsystem, which every other operation needs live.
//!
//! The connection itself is opened and closed by the caller; this type holds
//! the decisions around it. It is live from construction until it is released,
//! it is released exactly once whatever happened in between, and it starts
//! the bulk operations and finishes the enumeration of imported pools.
use vstd::prelude::*;

use crate::batch::{BatchRun, ItemOutcome};
use crate::error::{status_to_result, ZfsError};

verus! {

pub struct Libzfs {
    open: bool,
}

impl Libzfs {
    /// Whether the connection is live.
    pub closed spec fn is_open(&self) -> bool {
        self.open
    }

    /// The context of a connection that the caller has just established.
    pub fn new() -> (r: Libzfs)
        ensures
            r.is_open(),
    {
        Libzfs { open: true }
    }

    /// Whether the connection is live.
    pub fn is_live(&self) -> (r: bool)
        ensures
            r == self.is_open(),
    {
        self.open
    }

    /// Marks the connection released. Returns `true` when the caller must
    /// close the connection now: on the first call only, so that the
    /// connection is closed exactly once.
    pub fn release(&mut self) -> (first: bool)
        ensures
            first == old(self).is_open(),
            !final(self).is_open(),
    {
        let first = self.open;
        self.open = false;
        first
    }

    /// Starts importing a discovery result of `entries` entries. For each
    /// entry in turn the caller extracts its configuration description (the
    /// preparing step) and, when that succeeded, imports the pool it
    /// describes (the committing step).
    pub fn import_all(&mut self, entries: usize) -> (r: BatchRun)
        requires
            old(self).is_open(),
        ensures
            *final(self) == *old(self),
            r.wf(),
            r.size() == entries,
            r.history() == Seq::<ItemOutcome>::empty(),
            !r.awaiting_commit(),
    {
        BatchRun::new(entries)
    }

    /// Starts exporting `pools` pools. For each pool in turn the caller
    /// quiesces its datasets (the preparing step) and, when that succeeded,
    /// exports the pool (the committing step).
    pub fn export_all(&mut self, pools: usize) -> (r: BatchRun)
        requires
            old(self).is_open(),
        ensures
            *final(self) == *old(self),
            r.wf(),
            r.size() == pools,
            r.history() == Seq::<ItemOutcome>::empty(),
            !r.awaiting_commit(),
    {
        BatchRun::new(pools)
    }

    /// Finishes an enumeration of the imported pools: `visited` holds the
    /// pools in the order the traversal visited them, and `code` is the
    /// status the traversal ended with. A failed traversal yields its error
    /// and none of the pools, never a partial list.
    pub fn get_imported_pools<T>(&mut self, code: i32, visited: Vec<T>) -> (r: Result<
        Vec<T>,
        ZfsError,
    >)
        requires
            old(self).is_open(),
        ensures
            *final(self) == *old(self),
            match r {
                Ok(v) => code == 0 && v@ == visited@,
                Err(e) => code != 0 && e == ZfsError::Io(code),
            },
    {
        match status_to_result(code) {
            Ok(()) => Ok(visited),
            Err(e) => Err(e),
        }
    }
}

impl Default for Libzfs {
    fn default() -> (r: Libzfs)
        ensures
            r.is_open(),
    {
        Libzfs::new()
    }
}

} // verus!

//! Renames that have begun and not yet returned.
use crate::raw::{RawEventHeader, RawFileRenameEvent};
use std::collections::HashMap;
use vstd::prelude::*;

verus! {

/// How many renames can be pending at a time.
pub const MAX_PENDING_RENAMES: usize = 1024;

/// The renames that have begun and not yet returned, each under the task that
/// it runs in. A task runs one rename at a time.
pub struct PendingRenames {
    entries: HashMap<u64, RawFileRenameEvent>,
}

impl View for PendingRenames {
    type V = Map<u64, RawFileRenameEvent>;

    closed spec fn view(&self) -> Map<u64, RawFileRenameEvent> {
        self.entries@
    }
}

impl PendingRenames {
    /// The number that stands for the task of `header`.
    pub open spec fn task(header: RawEventHeader) -> u64 {
        (header.pid * 0x1_0000_0000 + header.tid) as u64
    }

    /// No more renames are pending than there is room for.
    pub open spec fn well_formed(&self) -> bool {
        self@.dom().len() <= MAX_PENDING_RENAMES
    }

    /// The pending renames once `record` was kept: it takes the place of one of
    /// the same task. When there is no room nothing is kept.
    pub open spec fn with(&self, record: RawFileRenameEvent) -> Map<u64, RawFileRenameEvent> {
        if self@.dom().len() >= MAX_PENDING_RENAMES {
            self@
        } else {
            self@.insert(PendingRenames::task(record.header), record)
        }
    }

    /// No pending renames.
    pub fn new() -> (r: Self)
        ensures
            r@ == Map::<u64, RawFileRenameEvent>::empty(),
            r.well_formed(),
    {
        PendingRenames { entries: HashMap::new() }
    }

    /// How many renames are pending.
    pub fn len(&self) -> (r: usize)
        ensures
            r == self@.dom().len(),
    {
        broadcast use vstd::std_specs::hash::group_hash_axioms;

        self.entries.len()
    }

    fn task_of(header: &RawEventHeader) -> (r: u64)
        ensures
            r == PendingRenames::task(*header),
    {
        header.pid as u64 * 0x1_0000_0000 + header.tid as u64
    }

    /// Keeps the start of a rename.
    pub fn insert(&mut self, record: RawFileRenameEvent)
        ensures
            final(self)@ == old(self).with(record),
            old(self).well_formed() ==> final(self).well_formed(),
    {
        broadcast use vstd::std_specs::hash::group_hash_axioms;

        if self.len() < MAX_PENDING_RENAMES {
            self.entries.insert(PendingRenames::task_of(&record.header), record);
        }
    }

    /// Takes out the rename that the task of `header` has pending, if any.
    pub fn take(&mut self, header: &RawEventHeader) -> (r: Option<RawFileRenameEvent>)
        ensures
            final(self)@ == old(self)@.remove(PendingRenames::task(*header)),
            r == (if old(self)@.contains_key(PendingRenames::task(*header)) {
                Some(old(self)@[PendingRenames::task(*header)])
            } else {
                None
            }),
            old(self).well_formed() ==> final(self).well_formed(),
    {
        broadcast use vstd::std_specs::hash::group_hash_axioms;

        self.entries.remove(&PendingRenames::task_of(header))
    }
}

/// Two tasks never share a pending rename: the number of a task determines its
/// process and thread.
pub proof fn law_tasks_are_distinct(a: RawEventHeader, b: RawEventHeader)
    requires
        PendingRenames::task(a) == PendingRenames::task(b),
    ensures
        a.pid == b.pid,
        a.tid == b.tid,
{
}

} // verus!

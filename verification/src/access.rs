//! The record of who is accessing what.

use vstd::prelude::*;

use crate::archetype::ArchetypeComponentId;
use crate::sparse_set::SparseSet;

verus! {

/// The access count of a resource that is being written.
pub const UNIQUE_ACCESS: usize = 0;

/// The access count of a resource that nobody is accessing. Each reader adds one to it.
pub const BASE_ACCESS: usize = 1;

/// For each resource that was ever accessed, its access count: [`UNIQUE_ACCESS`] while it is being
/// written, and otherwise [`BASE_ACCESS`] plus the number of its readers.
pub struct ArchetypeComponentAccess {
    pub access: SparseSet<usize>,
}

/// The access count of `id` in `table`. A resource that the table does not list is not being
/// accessed.
pub open spec fn access_count(table: Map<usize, usize>, id: ArchetypeComponentId) -> usize {
    if table.contains_key(id.index()) {
        table[id.index()]
    } else {
        BASE_ACCESS
    }
}

/// `table` with the access count of `id` set to `count`.
pub open spec fn with_count(
    table: Map<usize, usize>,
    id: ArchetypeComponentId,
    count: usize,
) -> Map<usize, usize> {
    table.insert(id.index(), count)
}

/// A request to read `id` is granted: nobody is writing it.
pub open spec fn read_granted(table: Map<usize, usize>, id: ArchetypeComponentId) -> bool {
    access_count(table, id) != UNIQUE_ACCESS
}

/// A request to write `id` is granted: nobody is accessing it.
pub open spec fn write_granted(table: Map<usize, usize>, id: ArchetypeComponentId) -> bool {
    access_count(table, id) == BASE_ACCESS
}

/// The table after a request to read `id`.
pub open spec fn after_read(table: Map<usize, usize>, id: ArchetypeComponentId) -> Map<
    usize,
    usize,
> {
    if read_granted(table, id) {
        with_count(table, id, (access_count(table, id) + 1) as usize)
    } else {
        table
    }
}

/// The table after a reader of `id` has gone.
pub open spec fn after_drop_read(table: Map<usize, usize>, id: ArchetypeComponentId) -> Map<
    usize,
    usize,
> {
    with_count(table, id, (access_count(table, id) - 1) as usize)
}

/// The table after a request to write `id`.
pub open spec fn after_write(table: Map<usize, usize>, id: ArchetypeComponentId) -> Map<
    usize,
    usize,
> {
    if write_granted(table, id) {
        with_count(table, id, UNIQUE_ACCESS)
    } else {
        table
    }
}

/// The table after the writer of `id` has gone.
pub open spec fn after_drop_write(table: Map<usize, usize>, id: ArchetypeComponentId) -> Map<
    usize,
    usize,
> {
    with_count(table, id, BASE_ACCESS)
}

/// The access count that a resource starts from.
fn base_access() -> (base: usize)
    ensures
        base == BASE_ACCESS,
{
    BASE_ACCESS
}

impl View for ArchetypeComponentAccess {
    type V = Map<usize, usize>;

    /// The access counts, by the number behind the identifier.
    open spec fn view(&self) -> Map<usize, usize> {
        self.access@
    }
}

impl Default for ArchetypeComponentAccess {
    fn default() -> (access: Self)
        ensures
            access.wf(),
            access@ == Map::<usize, usize>::empty(),
    {
        ArchetypeComponentAccess::new()
    }
}

impl ArchetypeComponentAccess {
    /// The record is in order.
    pub open spec fn wf(&self) -> bool {
        self.access.wf()
    }

    /// A record in which nothing was ever accessed.
    pub fn new() -> (access: Self)
        ensures
            access.wf(),
            access@ == Map::<usize, usize>::empty(),
    {
        ArchetypeComponentAccess { access: SparseSet::new() }
    }

    /// The access count of `id`.
    pub fn count(&self, id: ArchetypeComponentId) -> (count: usize)
        requires
            self.wf(),
        ensures
            count == access_count(self@, id),
    {
        match self.access.get(id.index()) {
            Some(count) => *count,
            None => BASE_ACCESS,
        }
    }

    /// Asks to read `id`. Returns whether the request is granted, which it is unless `id` is being
    /// written; there is then one more reader.
    pub fn read(&mut self, id: ArchetypeComponentId) -> (granted: bool)
        requires
            old(self).wf(),
            access_count(old(self)@, id) < usize::MAX,
        ensures
            final(self).wf(),
            granted == read_granted(old(self)@, id),
            final(self)@ == after_read(old(self)@, id),
    {
        let id_access = self.access.get_or_insert_with(id.index(), base_access);
        if *id_access == UNIQUE_ACCESS {
            false
        } else {
            *id_access += 1;
            true
        }
    }

    /// Takes back a granted request to read `id`: there is one reader less.
    pub fn drop_read(&mut self, id: ArchetypeComponentId)
        requires
            old(self).wf(),
            access_count(old(self)@, id) != UNIQUE_ACCESS,
        ensures
            final(self).wf(),
            final(self)@ == after_drop_read(old(self)@, id),
    {
        let id_access = self.access.get_or_insert_with(id.index(), base_access);
        *id_access -= 1;
    }

    /// Asks to write `id`. Returns whether the request is granted, which it is unless `id` is
    /// being read or written.
    pub fn write(&mut self, id: ArchetypeComponentId) -> (granted: bool)
        requires
            old(self).wf(),
        ensures
            final(self).wf(),
            granted == write_granted(old(self)@, id),
            final(self)@ == after_write(old(self)@, id),
    {
        let id_access = self.access.get_or_insert_with(id.index(), base_access);
        if *id_access == BASE_ACCESS {
            *id_access = UNIQUE_ACCESS;
            true
        } else {
            false
        }
    }

    /// Takes back a granted request to write `id`: nobody is accessing it any more.
    pub fn drop_write(&mut self, id: ArchetypeComponentId)
        requires
            old(self).wf(),
        ensures
            final(self).wf(),
            final(self)@ == after_drop_write(old(self)@, id),
    {
        let id_access = self.access.get_or_insert_with(id.index(), base_access);
        *id_access = BASE_ACCESS;
    }
}

} // verus!

//! What holds of accesses as a whole.

use vstd::multiset::Multiset;
use vstd::prelude::*;

#[allow(unused_imports)]
use crate::access::{self, ArchetypeComponentAccess};
use crate::archetype::ArchetypeComponentId;
#[allow(unused_imports)]
use crate::borrow::{self, WorldBorrow, WorldBorrowMut};
use crate::change_detection::Mut;
use crate::component::{ComponentId, TypeId};
use crate::error::BorrowError;
use crate::event::Events;
#[allow(unused_imports)]
use crate::world::{self, ResourceIds, World};
#[allow(unused_imports)]
use crate::world_cell::{self, WorldCell};

verus! {

/// Access that was granted and not given back: to what, and whether it is to write.
pub struct Grant {
    pub id: ArchetypeComponentId,
    pub unique: bool,
}

/// What a user of a cell does: asks for access, or gives it back.
pub enum Step {
    Acquire(Grant),
    Release(Grant),
}

/// The state of a cell: its record of accesses, and the grants that are outstanding.
pub struct Session {
    pub table: Map<usize, usize>,
    pub live: Multiset<Grant>,
}

impl Session {
    /// Nothing was ever accessed.
    pub open spec fn fresh() -> Session {
        Session { table: Map::empty(), live: Multiset::empty() }
    }

    /// How many outstanding grants there are to read `id`.
    pub open spec fn readers(self, id: ArchetypeComponentId) -> nat {
        self.live.count(Grant { id, unique: false })
    }

    /// How many outstanding grants there are to write `id`.
    pub open spec fn writers(self, id: ArchetypeComponentId) -> nat {
        self.live.count(Grant { id, unique: true })
    }

    /// Rust's mutability rules hold of the outstanding grants for `id`: if it is being written, it
    /// is being written by one, and read by nobody.
    pub open spec fn exclusive_at(self, id: ArchetypeComponentId) -> bool {
        self.writers(id) > 0 ==> self.writers(id) == 1 && self.readers(id) == 0
    }

    /// Rust's mutability rules hold of the outstanding grants.
    pub open spec fn exclusive(self) -> bool {
        forall|id: ArchetypeComponentId| #[trigger] self.exclusive_at(id)
    }

    /// The record of accesses counts the outstanding grants for `id`.
    pub open spec fn counted_at(self, id: ArchetypeComponentId) -> bool {
        if self.writers(id) > 0 {
            access::access_count(self.table, id) == access::UNIQUE_ACCESS
        } else {
            access::access_count(self.table, id) == access::BASE_ACCESS + self.readers(id)
        }
    }

    /// The record of accesses counts the outstanding grants.
    pub open spec fn counted(self) -> bool {
        forall|id: ArchetypeComponentId| #[trigger] self.counted_at(id)
    }

    /// The state after asking for `grant`, which may be refused.
    pub open spec fn acquire(self, grant: Grant) -> Session {
        if grant.unique {
            if borrow::write_refusal(self.table, grant.id) is None {
                Session {
                    table: access::after_write(self.table, grant.id),
                    live: self.live.insert(grant),
                }
            } else {
                self
            }
        } else {
            if borrow::read_refusal(self.table, grant.id) is None {
                Session {
                    table: access::after_read(self.table, grant.id),
                    live: self.live.insert(grant),
                }
            } else {
                self
            }
        }
    }

    /// The state after giving back `grant`, which is only possible if it is outstanding.
    pub open spec fn release(self, grant: Grant) -> Session {
        if self.live.count(grant) > 0 {
            Session {
                table: borrow::after_drop(self.table, grant.id, grant.unique),
                live: self.live.remove(grant),
            }
        } else {
            self
        }
    }

    /// The state after `steps`, one after the other.
    pub open spec fn run(self, steps: Seq<Step>) -> Session
        decreases steps.len(),
    {
        if steps.len() == 0 {
            self
        } else {
            match steps.last() {
                Step::Acquire(grant) => self.run(steps.drop_last()).acquire(grant),
                Step::Release(grant) => self.run(steps.drop_last()).release(grant),
            }
        }
    }
}

/// In a cell on a fresh world Rust's mutability rules hold and the accesses are counted.
pub proof fn law_fresh()
    ensures
        Session::fresh().exclusive(),
        Session::fresh().counted(),
{
}

/// Asking for access, whether it is granted or not, keeps Rust's mutability rules.
pub proof fn law_acquire_keeps_exclusion(session: Session, grant: Grant)
    requires
        session.exclusive(),
        session.counted(),
    ensures
        session.acquire(grant).exclusive(),
        session.acquire(grant).counted(),
{
    let after = session.acquire(grant);
    assert forall|id: ArchetypeComponentId| after.exclusive_at(id) && after.counted_at(id) by {
        assert(session.exclusive_at(id) && session.counted_at(id));
        if id.index() == grant.id.index() {
            ArchetypeComponentId::lemma_index_injective(id, grant.id);
        }
    }
}

/// Giving access back keeps Rust's mutability rules.
pub proof fn law_release_keeps_exclusion(session: Session, grant: Grant)
    requires
        session.exclusive(),
        session.counted(),
    ensures
        session.release(grant).exclusive(),
        session.release(grant).counted(),
{
    let after = session.release(grant);
    assert forall|id: ArchetypeComponentId| after.exclusive_at(id) && after.counted_at(id) by {
        assert(session.exclusive_at(id) && session.counted_at(id));
        if id.index() == grant.id.index() {
            ArchetypeComponentId::lemma_index_injective(id, grant.id);
        }
    }
}

/// Whatever the users of a cell do, in whatever order, Rust's mutability rules are kept: nothing is
/// ever being written by two, or written by one and read by another.
pub proof fn law_exclusion(start: Session, steps: Seq<Step>)
    requires
        start.exclusive(),
        start.counted(),
    ensures
        start.run(steps).exclusive(),
        start.run(steps).counted(),
    decreases steps.len(),
{
    if steps.len() > 0 {
        law_exclusion(start, steps.drop_last());
        let before = start.run(steps.drop_last());
        match steps.last() {
            Step::Acquire(grant) => law_acquire_keeps_exclusion(before, grant),
            Step::Release(grant) => law_release_keeps_exclusion(before, grant),
        }
    }
}

/// Access to read is granted if and only if nobody is writing, as long as the readers can be
/// counted; several may read at the same time.
pub proof fn law_read_granted(session: Session, id: ArchetypeComponentId)
    requires
        session.exclusive(),
        session.counted(),
    ensures
        access::read_granted(session.table, id) <==> session.writers(id) == 0,
        borrow::read_refusal(session.table, id) is None <==> session.writers(id) == 0
            && access::BASE_ACCESS + session.readers(id) < usize::MAX,
{
    assert(session.exclusive_at(id) && session.counted_at(id));
}

/// Access to write is granted if and only if nobody is reading or writing.
pub proof fn law_write_granted(session: Session, id: ArchetypeComponentId)
    requires
        session.exclusive(),
        session.counted(),
    ensures
        access::write_granted(session.table, id) <==> session.writers(id) == 0 && session.readers(
            id,
        ) == 0,
        borrow::write_refusal(session.table, id) is None <==> session.writers(id) == 0
            && session.readers(id) == 0,
{
    assert(session.exclusive_at(id) && session.counted_at(id));
}

/// What a cell does when it is asked for a resource is a step of its session. If no value is found,
/// there is another step, which gives the access back.
pub proof fn law_cell_requests_are_steps(session: Session, ids: ResourceIds)
    ensures
        ({
            let grant = Grant { id: ids.archetype_component_id, unique: false };
            match world_cell::read_refused(Some(ids), session.table) {
                Some(_) => session.acquire(grant) == session,
                None => {
                    &&& session.acquire(grant).table == world_cell::after_read(
                        Some(ids),
                        session.table,
                        true,
                    )
                    &&& session.acquire(grant).release(grant).table == world_cell::after_read(
                        Some(ids),
                        session.table,
                        false,
                    )
                    &&& session.acquire(grant).release(grant).live == session.live
                },
            }
        }),
        ({
            let grant = Grant { id: ids.archetype_component_id, unique: true };
            match world_cell::write_refused(Some(ids), session.table) {
                Some(_) => session.acquire(grant) == session,
                None => {
                    &&& session.acquire(grant).table == world_cell::after_write(
                        Some(ids),
                        session.table,
                        true,
                    )
                    &&& session.acquire(grant).release(grant).table == world_cell::after_write(
                        Some(ids),
                        session.table,
                        false,
                    )
                    &&& session.acquire(grant).release(grant).live == session.live
                },
            }
        }),
{
    let shared = Grant { id: ids.archetype_component_id, unique: false };
    let unique = Grant { id: ids.archetype_component_id, unique: true };
    assert(session.live.insert(shared).remove(shared) =~= session.live);
    assert(session.live.insert(unique).remove(unique) =~= session.live);
}

/// Asking for a resource that has no value changes no access count: whatever could be accessed
/// before can be accessed after.
pub proof fn law_missing_value_changes_no_count(
    table: Map<usize, usize>,
    ids: Option<ResourceIds>,
    other: ArchetypeComponentId,
)
    ensures
        world_cell::read_refused(ids, table) is None ==> access::access_count(
            world_cell::after_read(ids, table, false),
            other,
        ) == access::access_count(table, other),
        world_cell::write_refused(ids, table) is None ==> access::access_count(
            world_cell::after_write(ids, table, false),
            other,
        ) == access::access_count(table, other),
{
}

/// Once all access to a resource is given back, its access count is back where it started.
pub proof fn law_all_given_back(session: Session, id: ArchetypeComponentId)
    requires
        session.counted(),
        session.readers(id) == 0,
        session.writers(id) == 0,
    ensures
        access::access_count(session.table, id) == access::BASE_ACCESS,
{
    assert(session.counted_at(id));
}

/// Whoever may read can give the access back, and is never refused another access to read for the
/// reason that somebody is writing.
pub proof fn law_reader_is_counted(session: Session, id: ArchetypeComponentId)
    requires
        session.exclusive(),
        session.counted(),
        session.readers(id) > 0,
    ensures
        access::read_granted(session.table, id),
        access::access_count(session.table, id) > access::BASE_ACCESS,
{
    assert(session.exclusive_at(id) && session.counted_at(id));
}

/// While a resource is being written, every other request for it is refused, and a request that is
/// refused changes nothing.
pub proof fn law_writer_excludes_others(table: Map<usize, usize>, id: ArchetypeComponentId)
    requires
        access::write_granted(table, id),
    ensures
        ({
            let writing = access::after_write(table, id);
            &&& borrow::read_refusal(writing, id) == Some(BorrowError::Immutable)
            &&& borrow::write_refusal(writing, id) == Some(BorrowError::Mutable)
            &&& access::after_read(writing, id) == writing
            &&& access::after_write(writing, id) == writing
        }),
{
}

/// While a resource is being read, it may be read by more, as long as they can be counted, but not
/// written.
pub proof fn law_reader_excludes_writers(table: Map<usize, usize>, id: ArchetypeComponentId)
    requires
        borrow::read_refusal(table, id) is None,
    ensures
        ({
            let reading = access::after_read(table, id);
            &&& access::read_granted(reading, id)
            &&& borrow::write_refusal(reading, id) == Some(BorrowError::Mutable)
            &&& access::after_write(reading, id) == reading
        }),
{
}

/// Giving access to read back undoes its being granted.
pub proof fn law_drop_read_undoes_read(
    table: Map<usize, usize>,
    id: ArchetypeComponentId,
    other: ArchetypeComponentId,
)
    requires
        borrow::read_refusal(table, id) is None,
    ensures
        access::access_count(
            access::after_drop_read(access::after_read(table, id), id),
            other,
        ) == access::access_count(table, other),
        table.contains_key(id.index()) ==> access::after_drop_read(
            access::after_read(table, id),
            id,
        ) == table,
{
}

/// Giving access to write back undoes its being granted.
pub proof fn law_drop_write_undoes_write(
    table: Map<usize, usize>,
    id: ArchetypeComponentId,
    other: ArchetypeComponentId,
)
    requires
        borrow::write_refusal(table, id) is None,
    ensures
        access::access_count(
            access::after_drop_write(access::after_write(table, id), id),
            other,
        ) == access::access_count(table, other),
        table.contains_key(id.index()) ==> access::after_drop_write(
            access::after_write(table, id),
            id,
        ) == table,
{
}

/// What is asked for or given back of one resource does not touch another.
pub proof fn law_resources_are_independent(
    table: Map<usize, usize>,
    id: ArchetypeComponentId,
    other: ArchetypeComponentId,
)
    requires
        id.index() != other.index(),
    ensures
        access::access_count(access::after_read(table, id), other) == access::access_count(
            table,
            other,
        ),
        access::access_count(access::after_drop_read(table, id), other) == access::access_count(
            table,
            other,
        ),
        access::access_count(access::after_write(table, id), other) == access::access_count(
            table,
            other,
        ),
        access::access_count(access::after_drop_write(table, id), other) == access::access_count(
            table,
            other,
        ),
{
}

/// Different resources are accessed under different identifiers, also if the one is a non-send
/// resource and the other is not.
pub proof fn law_distinct_identifiers(world: World, s: TypeId, t: TypeId)
    requires
        world.wf(),
    ensures
        s != t ==> (world.resource_entry(s) matches Some(a) ==> world.resource_entry(t) matches Some(
            b,
        ) ==> a.archetype_component_id.index() != b.archetype_component_id.index()),
        s != t ==> (world.non_send_resource_entry(s) matches Some(a)
            ==> world.non_send_resource_entry(t) matches Some(b)
            ==> a.archetype_component_id.index() != b.archetype_component_id.index()),
        world.resource_entry(s) matches Some(a) ==> world.non_send_resource_entry(t) matches Some(b)
            ==> a.archetype_component_id.index() != b.archetype_component_id.index(),
{
}

/// A request for the resource `a`, be it to read or to write, and whether a value is found or not,
/// leaves the answer to a request for the resource `b` what it was.
pub open spec fn unhindered(
    a: Option<ResourceIds>,
    b: Option<ResourceIds>,
    table: Map<usize, usize>,
) -> bool {
    forall|found: bool|
        {
            let reading = #[trigger] world_cell::after_read(a, table, found);
            let writing = world_cell::after_write(a, table, found);
            &&& world_cell::read_refused(b, reading) == world_cell::read_refused(b, table)
            &&& world_cell::write_refused(b, reading) == world_cell::write_refused(b, table)
            &&& world_cell::read_refused(b, writing) == world_cell::read_refused(b, table)
            &&& world_cell::write_refused(b, writing) == world_cell::write_refused(b, table)
        }
}

/// Access to one resource does not stand in the way of access to another, be it to read or to
/// write. A resource and a non-send resource are two, also if they are of the same type.
pub proof fn law_no_conflict_between_resources(
    world: World,
    s: TypeId,
    t: TypeId,
    table: Map<usize, usize>,
)
    requires
        world.wf(),
    ensures
        s != t ==> unhindered(world.resource_entry(s), world.resource_entry(t), table),
        s != t ==> unhindered(
            world.non_send_resource_entry(s),
            world.non_send_resource_entry(t),
            table,
        ),
        unhindered(world.resource_entry(s), world.non_send_resource_entry(t), table),
        unhindered(world.non_send_resource_entry(t), world.resource_entry(s), table),
{
    law_distinct_identifiers(world, s, t);
}

/// The record of accesses of a cell goes back to the world when the cell is closed, and from there
/// to the next cell.
pub proof fn law_record_is_reused(first: WorldCell, world: World, second: WorldCell)
    requires
        first.closed_into(world),
        second.opened_on(world),
    ensures
        second.access@ == first.access@,
        forall|t: TypeId|
            second.now().resource_entry(t) == #[trigger] first.now().resource_entry(t),
        forall|t: TypeId|
            second.now().non_send_resource_entry(t) == #[trigger] first.now().non_send_resource_entry(
                t,
            ),
{
}

/// Opening a cell and closing it without asking for anything leaves the world as it was.
pub proof fn law_open_then_close(before: World, cell: WorldCell, after: World)
    requires
        cell.opened_on(before),
        cell.closed_into(after),
    ensures
        after.archetype_component_access@ == before.archetype_component_access@,
        after.components == before.components,
        after.storages == before.storages,
        after.archetype_component_count == before.archetype_component_count,
{
}

/// The access count of a resource is the number that the table lists for it: 0 while it is being
/// written, and 1 if the table does not list it.
pub proof fn law_access_count(table: Map<usize, usize>, id: ArchetypeComponentId)
    ensures
        table.contains_key(id.index()) ==> access::access_count(table, id) == table[id.index()],
        !table.contains_key(id.index()) ==> access::access_count(table, id) == 1,
        access::read_granted(table, id) <==> !(table.contains_key(id.index()) && table[id.index()]
            == 0),
        access::write_granted(table, id) <==> (table.contains_key(id.index())
            ==> table[id.index()] == 1),
{
}

/// A reader that is let in adds one to what the table lists for the resource, and a writer makes it
/// 0; one that is not let in leaves the table as it is. A reader that goes takes one off, and a
/// writer that goes makes it 1.
pub proof fn law_listed_number_changes(table: Map<usize, usize>, id: ArchetypeComponentId)
    ensures
        ({
            let i = id.index();
            let listed: int = if table.contains_key(i) {
                table[i] as int
            } else {
                1
            };
            let reading = access::after_read(table, id);
            let writing = access::after_write(table, id);
            let read = access::after_drop_read(table, id);
            let written = access::after_drop_write(table, id);
            &&& listed == 0 ==> reading == table
            &&& 0 < listed < usize::MAX ==> reading.contains_key(i) && reading[i] == listed + 1
            &&& listed != 1 ==> writing == table
            &&& listed == 1 ==> writing.contains_key(i) && writing[i] == 0
            &&& 0 < listed ==> read.contains_key(i) && read[i] == listed - 1
            &&& written.contains_key(i) && written[i] == 1
        }),
{
}

/// No request, and nothing that is given back, changes what the table lists at another place.
pub proof fn law_listed_elsewhere_stays(
    table: Map<usize, usize>,
    id: ArchetypeComponentId,
    unique: bool,
    found: bool,
    place: usize,
)
    requires
        place != id.index(),
    ensures
        ({
            let reading = access::after_read(table, id);
            let writing = access::after_write(table, id);
            let read = access::after_drop_read(table, id);
            let written = access::after_drop_write(table, id);
            let dropped = borrow::after_drop(table, id, unique);
            let asked = borrow::after_read_request(table, id, found);
            let asked_mut = borrow::after_write_request(table, id, found);
            &&& reading.contains_key(place) == table.contains_key(place)
            &&& writing.contains_key(place) == table.contains_key(place)
            &&& read.contains_key(place) == table.contains_key(place)
            &&& written.contains_key(place) == table.contains_key(place)
            &&& dropped.contains_key(place) == table.contains_key(place)
            &&& asked.contains_key(place) == table.contains_key(place)
            &&& asked_mut.contains_key(place) == table.contains_key(place)
            &&& table.contains_key(place) ==> {
                &&& reading[place] == table[place]
                &&& writing[place] == table[place]
                &&& read[place] == table[place]
                &&& written[place] == table[place]
                &&& dropped[place] == table[place]
                &&& asked[place] == table[place]
                &&& asked_mut[place] == table[place]
            }
        }),
{
}

/// A witness that goes takes one reader off, or makes the resource free if it was the writer's.
pub proof fn law_witness_gives_back(table: Map<usize, usize>, id: ArchetypeComponentId)
    ensures
        ({
            let i = id.index();
            let listed: int = if table.contains_key(i) {
                table[i] as int
            } else {
                1
            };
            let read = borrow::after_drop(table, id, false);
            let written = borrow::after_drop(table, id, true);
            &&& 0 < listed ==> read.contains_key(i) && read[i] == listed - 1
            &&& written.contains_key(i) && written[i] == 1
        }),
{
}

/// A request to read is refused for two reasons only: the table lists 0, as for what is being
/// written, or the largest number there is. A request to write is refused unless the table lists 1
/// or nothing.
pub proof fn law_reasons_for_refusal(table: Map<usize, usize>, id: ArchetypeComponentId)
    ensures
        ({
            let i = id.index();
            let reading = borrow::read_refusal(table, id);
            let writing = borrow::write_refusal(table, id);
            &&& reading == Some(BorrowError::Immutable) <==> table.contains_key(i) && table[i] == 0
            &&& reading == Some(BorrowError::TooManyReaders) <==> table.contains_key(i) && table[i]
                == usize::MAX
            &&& reading is None <==> (table.contains_key(i) ==> 0 < table[i] < usize::MAX)
            &&& writing is None <==> (table.contains_key(i) ==> table[i] == 1)
            &&& writing is Some ==> writing == Some(BorrowError::Mutable)
        }),
{
}

/// A request that is not refused leaves one reader more, or the resource as being written, if a
/// value was found; if not, the number listed is what it was, or 1 if there was none.
pub proof fn law_request_is_listed(table: Map<usize, usize>, id: ArchetypeComponentId, found: bool)
    ensures
        ({
            let i = id.index();
            let listed: int = if table.contains_key(i) {
                table[i] as int
            } else {
                1
            };
            let reading = borrow::after_read_request(table, id, found);
            let writing = borrow::after_write_request(table, id, found);
            &&& 0 < listed < usize::MAX ==> reading.contains_key(i) && reading[i] == (if found {
                listed + 1
            } else {
                listed
            })
            &&& listed == 1 ==> writing.contains_key(i) && writing[i] == (if found {
                0int
            } else {
                1
            })
        }),
{
}

/// A cell answers a request for a resource by what its table lists under the identifier of that
/// resource, and records it there and nowhere else. A request for a resource that does not exist is
/// not refused, and is not recorded.
pub proof fn law_cell_goes_by_its_table(
    table: Map<usize, usize>,
    ids: ResourceIds,
    found: bool,
    place: usize,
)
    ensures
        world_cell::read_refused(None, table) is None,
        world_cell::write_refused(None, table) is None,
        world_cell::after_read(None, table, found) == table,
        world_cell::after_write(None, table, found) == table,
        ({
            let i = ids.archetype_component_id.index();
            let listed: int = if table.contains_key(i) {
                table[i] as int
            } else {
                1
            };
            let read_refused = world_cell::read_refused(Some(ids), table);
            let write_refused = world_cell::write_refused(Some(ids), table);
            let reading = world_cell::after_read(Some(ids), table, found);
            let writing = world_cell::after_write(Some(ids), table, found);
            &&& read_refused is None <==> 0 < listed < usize::MAX
            &&& read_refused == Some(BorrowError::Immutable) <==> listed == 0
            &&& read_refused == Some(BorrowError::TooManyReaders) <==> listed == usize::MAX
            &&& write_refused is None <==> listed == 1
            &&& write_refused == Some(BorrowError::Mutable) <==> listed != 1
            &&& 0 < listed < usize::MAX ==> reading.contains_key(i) && reading[i] == (if found {
                listed + 1
            } else {
                listed
            })
            &&& listed == 1 ==> writing.contains_key(i) && writing[i] == (if found {
                0int
            } else {
                1
            })
            &&& place != i ==> {
                &&& reading.contains_key(place) == table.contains_key(place)
                &&& writing.contains_key(place) == table.contains_key(place)
                &&& table.contains_key(place) ==> reading[place] == table[place]
                &&& table.contains_key(place) ==> writing[place] == table[place]
            }
        }),
{
}

/// A borrow for reading is of the value that was fetched for the resource that was asked for, and
/// ending it takes back the very access that was granted: every access count is then what it was
/// before the request.
pub proof fn law_read_then_drop<'v, T, F: FnOnce(ComponentId) -> Option<&'v T>>(
    ids: ResourceIds,
    fetch: F,
    borrowed: WorldBorrow<'v, T>,
    table: Map<usize, usize>,
    other: ArchetypeComponentId,
)
    requires
        world_cell::fetched(Some(ids), fetch, Some(borrowed)),
        world_cell::read_refused(Some(ids), table) is None,
    ensures
        call_ensures(fetch, (ids.component_id,), Some(borrowed.value())),
        borrowed.id() == ids.archetype_component_id,
        access::access_count(
            access::after_drop_read(
                world_cell::after_read(Some(ids), table, true),
                borrowed.id(),
            ),
            other,
        ) == access::access_count(table, other),
        world_cell::write_refused(Some(ids), table) == world_cell::write_refused(
            Some(ids),
            access::after_drop_read(
                world_cell::after_read(Some(ids), table, true),
                borrowed.id(),
            ),
        ),
{
}

/// A borrow for writing is of the value that was fetched for the resource that was asked for, and
/// ending it takes back the very access that was granted: every access count is then what it was
/// before the request.
pub proof fn law_write_then_drop<'v, T, F: FnOnce(ComponentId) -> Option<Mut<'v, T>>>(
    ids: ResourceIds,
    fetch: F,
    borrowed: WorldBorrowMut<'v, T>,
    table: Map<usize, usize>,
    other: ArchetypeComponentId,
)
    requires
        world_cell::fetched_mut(Some(ids), fetch, Some(borrowed)),
        world_cell::write_refused(Some(ids), table) is None,
    ensures
        call_ensures(fetch, (ids.component_id,), Some(borrowed.value())),
        borrowed.id() == ids.archetype_component_id,
        access::access_count(
            access::after_drop_write(
                world_cell::after_write(Some(ids), table, true),
                borrowed.id(),
            ),
            other,
        ) == access::access_count(table, other),
        world_cell::write_refused(
            Some(ids),
            access::after_drop_write(
                world_cell::after_write(Some(ids), table, true),
                borrowed.id(),
            ),
        ) is None,
{
}

/// There is a borrow of a resource exactly if the resource exists and its value was fetched.
pub proof fn law_no_borrow_without_value<
    'v,
    T,
    F: FnOnce(ComponentId) -> Option<&'v T>,
    G: FnOnce(ComponentId) -> Option<Mut<'v, T>>,
>(
    ids: Option<ResourceIds>,
    fetch: F,
    borrowed: Option<WorldBorrow<'v, T>>,
    fetch_mut: G,
    borrowed_mut: Option<WorldBorrowMut<'v, T>>,
)
    requires
        world_cell::fetched(ids, fetch, borrowed),
        world_cell::fetched_mut(ids, fetch_mut, borrowed_mut),
    ensures
        ids is None ==> borrowed is None && borrowed_mut is None,
        ids is Some && borrowed is None ==> call_ensures(
            fetch,
            (ids->0.component_id,),
            None::<&'v T>,
        ),
        ids is Some && borrowed_mut is None ==> call_ensures(
            fetch_mut,
            (ids->0.component_id,),
            None::<Mut<'v, T>>,
        ),
{
}

/// The value of what may be a borrow is the value of the borrow, if there is one.
pub proof fn law_value_of_borrow<'v, T>(
    borrowed: WorldBorrow<'v, T>,
    borrowed_mut: WorldBorrowMut<'v, T>,
)
    ensures
        WorldBorrow::value_of(Some(borrowed)) == Some(borrowed.value()),
        WorldBorrow::<'v, T>::value_of(None) == None::<&'v T>,
        WorldBorrowMut::value_of(Some(borrowed_mut)) == Some(borrowed_mut.value()),
        WorldBorrowMut::<'v, T>::value_of(None) == None::<Mut<'v, T>>,
{
}

/// A resource of some type exists exactly if the type has an identifier and there is room under
/// it; its identifiers are then the one of the type and the one that is kept there.
pub proof fn law_entry_is_what_is_stored(world: World, t: TypeId)
    ensures
        ({
            let known = world.components.resource_id(t);
            let c = known->0.index();
            let stored = world.storages.resources@;
            let stored_non_send = world.storages.non_send_resources@;
            let entry = world.resource_entry(t);
            let non_send_entry = world.non_send_resource_entry(t);
            &&& entry is Some <==> known is Some && stored.contains_key(c)
            &&& entry is Some ==> entry->0.component_id == known->0
                && entry->0.archetype_component_id == stored[c].id
            &&& non_send_entry is Some <==> known is Some && stored_non_send.contains_key(c)
            &&& non_send_entry is Some ==> non_send_entry->0.component_id == known->0
                && non_send_entry->0.archetype_component_id == stored_non_send[c].id
        }),
{
}

/// Types that a world knows have different identifiers.
pub proof fn law_distinct_types(world: World, s: TypeId, t: TypeId)
    requires
        world.wf(),
        s != t,
        world.components.resource_id(s) is Some,
        world.components.resource_id(t) is Some,
    ensures
        world.components.resource_id(s)->0 != world.components.resource_id(t)->0,
        world.components.resource_id(s)->0.index() != world.components.resource_id(t)->0.index(),
{
}

/// Once room was made for a resource it exists, whether or not it did before: it keeps its
/// identifiers if it had some, and is otherwise given an access identifier that was not given out.
pub proof fn law_room_is_made(
    before: Option<ResourceIds>,
    after: Option<ResourceIds>,
    component_id: ComponentId,
    count_before: usize,
    count_after: usize,
)
    requires
        world::entry_added(before, after, component_id, count_before, count_after),
    ensures
        after is Some,
        before is Some ==> after == before && count_after == count_before,
        before is None ==> after->0.component_id == component_id,
        before is None ==> count_before <= after->0.archetype_component_id.index() < count_after,
        before is None ==> count_after == count_before + 1,
{
}

/// Making room for a resource gives its type an identifier, unless it has one, and leaves those of
/// other types alone.
pub proof fn law_type_is_known(
    before: World,
    after: World,
    t: TypeId,
    component_id: ComponentId,
    other: TypeId,
)
    requires
        before.type_added(after, t, component_id),
    ensures
        after.components.resource_id(t) == Some(component_id),
        before.components.resource_id(t) is Some ==> before.components.resource_id(t)
            == after.components.resource_id(t),
        before.components.resource_id(t) is Some ==> after.components.count()
            == before.components.count(),
        before.components.resource_id(t) is None ==> component_id.index()
            == before.components.count(),
        before.components.resource_id(t) is None ==> after.components.count()
            == before.components.count() + 1,
        other != t ==> after.components.resource_id(other) == before.components.resource_id(other),
{
}

/// A cell gives access to the resources that the world held when the cell was opened, and under the
/// same identifiers.
pub proof fn law_cell_has_the_resources_of_its_world(world: World, cell: WorldCell, t: TypeId)
    requires
        cell.opened_on(world),
    ensures
        cell.now().resource_entry(t) == world.resource_entry(t),
        cell.now().non_send_resource_entry(t) == world.non_send_resource_entry(t),
        cell.now().storages.resources@ == world.storages.resources@,
        cell.now().storages.non_send_resources@ == world.storages.non_send_resources@,
        cell.now().components.resource_id(t) == world.components.resource_id(t),
        cell.now().components.count() == world.components.count(),
        cell.now().archetype_component_count == world.archetype_component_count,
        cell.now().archetype_component_access.access@ == Map::<usize, usize>::empty(),
        cell.access.access@ == world.archetype_component_access.access@,
{
}

/// A world has, after a cell on it was closed, the resources that the cell gave access to, and under
/// the same identifiers.
pub proof fn law_world_keeps_the_resources_of_its_cell(cell: WorldCell, world: World, t: TypeId)
    requires
        cell.closed_into(world),
    ensures
        world.resource_entry(t) == cell.now().resource_entry(t),
        world.non_send_resource_entry(t) == cell.now().non_send_resource_entry(t),
        world.storages.resources@ == cell.now().storages.resources@,
        world.storages.non_send_resources@ == cell.now().storages.non_send_resources@,
        world.components.resource_id(t) == cell.now().components.resource_id(t),
        world.components.count() == cell.now().components.count(),
        world.archetype_component_count == cell.now().archetype_component_count,
        world.archetype_component_access.access@ == cell.access.access@,
{
}

/// A resource for which room was made is found by every cell that is opened on the world after.
pub proof fn law_cell_finds_what_was_added(
    before: Option<ResourceIds>,
    world: World,
    t: TypeId,
    component_id: ComponentId,
    count: usize,
    cell: WorldCell,
)
    requires
        cell.opened_on(world),
    ensures
        world::entry_added(
            before,
            world.resource_entry(t),
            component_id,
            count,
            world.archetype_component_count,
        ) ==> cell.now().resource_entry(t) is Some,
        world::entry_added(
            before,
            world.non_send_resource_entry(t),
            component_id,
            count,
            world.archetype_component_count,
        ) ==> cell.now().non_send_resource_entry(t) is Some,
{
}

/// What the contracts speak of is what is there: a record of accesses is its table, a queue is its
/// events, and a cell is in order exactly if its world and its record are.
pub proof fn law_views<E, T>(
    record: ArchetypeComponentAccess,
    queue: Events<E>,
    cell: WorldCell,
    value: Mut<T>,
)
    ensures
        record@ == record.access@,
        record.wf() <==> record.access.wf(),
        queue@ == queue.events@,
        cell.now() == *old(cell.world),
        cell.wf() <==> old(cell.world).wf() && cell.access.wf(),
        value.now() == *old(value.value),
        value.changed_now() == *old(value.ticks.changed),
{
}

} // verus!

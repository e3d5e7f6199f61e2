//! Access to several resources of a world at a time.

use std::ops::DerefMut;
use vstd::prelude::*;

#[allow(unused_imports)]
use crate::access::{self, ArchetypeComponentAccess};
#[allow(unused_imports)]
use crate::borrow::{self, WorldBorrow, WorldBorrowMut};
use crate::change_detection::Mut;
use crate::component::{ComponentId, TypeId};
use crate::error::BorrowError;
use crate::event::Events;
use crate::world::{ResourceIds, World};

verus! {

/// Exposes safe mutable access to multiple resources at a time in a World. Requests for access that
/// violate Rust's mutability rules are refused at run time.
///
/// The cell decides who may access what. The values themselves are fetched by the caller: each
/// request comes with a function that fetches the value of a resource, and that function is called
/// only once access is granted. A borrow is to be given back, with its `drop`, to the `access` of
/// the cell that it comes from, and the cell itself is to be ended with [`WorldCell::drop`].
pub struct WorldCell<'w> {
    pub world: &'w mut World,
    pub access: ArchetypeComponentAccess,
}

/// Why a request to read the resource `ids` is refused, if it is. A resource that does not exist
/// is not refused.
pub open spec fn read_refused(ids: Option<ResourceIds>, table: Map<usize, usize>) -> Option<
    BorrowError,
> {
    match ids {
        Some(ids) => borrow::read_refusal(table, ids.archetype_component_id),
        None => None,
    }
}

/// Why a request to write the resource `ids` is refused, if it is. A resource that does not exist
/// is not refused.
pub open spec fn write_refused(ids: Option<ResourceIds>, table: Map<usize, usize>) -> Option<
    BorrowError,
> {
    match ids {
        Some(ids) => borrow::write_refusal(table, ids.archetype_component_id),
        None => None,
    }
}

/// The table after a request to read the resource `ids` that is not refused. If no value is found,
/// the access that was granted is given back.
pub open spec fn after_read(
    ids: Option<ResourceIds>,
    table: Map<usize, usize>,
    found: bool,
) -> Map<usize, usize> {
    match ids {
        Some(ids) => borrow::after_read_request(table, ids.archetype_component_id, found),
        None => table,
    }
}

/// The table after a request to write the resource `ids` that is not refused. If no value is found,
/// the access that was granted is given back.
pub open spec fn after_write(
    ids: Option<ResourceIds>,
    table: Map<usize, usize>,
    found: bool,
) -> Map<usize, usize> {
    match ids {
        Some(ids) => borrow::after_write_request(table, ids.archetype_component_id, found),
        None => table,
    }
}

/// The borrow of the resource `ids` for reading, where `fetch` fetches its value: there is one if
/// the resource exists and `fetch` fetched its value.
pub open spec fn fetched<'v, T, F: FnOnce(ComponentId) -> Option<&'v T>>(
    ids: Option<ResourceIds>,
    fetch: F,
    borrow: Option<WorldBorrow<'v, T>>,
) -> bool {
    match ids {
        Some(ids) => {
            &&& call_ensures(fetch, (ids.component_id,), WorldBorrow::value_of(borrow))
            &&& borrow is Some ==> borrow->0.id() == ids.archetype_component_id
        },
        None => borrow is None,
    }
}

/// The borrow of the resource `ids` for writing, where `fetch` fetches its value: there is one if
/// the resource exists and `fetch` fetched its value.
pub open spec fn fetched_mut<'v, T, F: FnOnce(ComponentId) -> Option<Mut<'v, T>>>(
    ids: Option<ResourceIds>,
    fetch: F,
    borrow: Option<WorldBorrowMut<'v, T>>,
) -> bool {
    match ids {
        Some(ids) => {
            &&& call_ensures(fetch, (ids.component_id,), WorldBorrowMut::value_of(borrow))
            &&& borrow is Some ==> borrow->0.id() == ids.archetype_component_id
        },
        None => borrow is None,
    }
}

/// Asks `access` for leave to read the resource `ids` and, if it is granted, borrows what `fetch`
/// fetches.
fn read_ids<'v, T: 'v, F: FnOnce(ComponentId) -> Option<&'v T>>(
    ids: Option<ResourceIds>,
    fetch: F,
    access: &mut ArchetypeComponentAccess,
) -> (borrow: Result<Option<WorldBorrow<'v, T>>, BorrowError>)
    requires
        old(access).wf(),
        ids is Some && read_refused(ids, old(access)@) is None ==> call_requires(
            fetch,
            (ids->0.component_id,),
        ),
    ensures
        final(access).wf(),
        match read_refused(ids, old(access)@) {
            Some(error) => {
                &&& borrow == Err::<Option<WorldBorrow<'v, T>>, BorrowError>(error)
                &&& final(access)@ == old(access)@
            },
            None => {
                &&& borrow is Ok
                &&& fetched(ids, fetch, borrow->Ok_0)
                &&& final(access)@ == after_read(ids, old(access)@, borrow->Ok_0 is Some)
            },
        },
{
    match ids {
        None => Ok(None),
        Some(ids) => {
            let component_id = ids.component_id;
            let value = || -> (value: Option<&'v T>)
                requires
                    call_requires(fetch, (component_id,)),
                ensures
                    call_ensures(fetch, (component_id,), value),
            {
                fetch(component_id)
            };
            WorldBorrow::try_new(value, ids.archetype_component_id, access)
        },
    }
}

/// Asks `access` for leave to write the resource `ids` and, if it is granted, borrows what `fetch`
/// fetches.
fn write_ids<'v, T: 'v, F: FnOnce(ComponentId) -> Option<Mut<'v, T>>>(
    ids: Option<ResourceIds>,
    fetch: F,
    access: &mut ArchetypeComponentAccess,
) -> (borrow: Result<Option<WorldBorrowMut<'v, T>>, BorrowError>)
    requires
        old(access).wf(),
        ids is Some && write_refused(ids, old(access)@) is None ==> call_requires(
            fetch,
            (ids->0.component_id,),
        ),
    ensures
        final(access).wf(),
        match write_refused(ids, old(access)@) {
            Some(error) => {
                &&& borrow == Err::<Option<WorldBorrowMut<'v, T>>, BorrowError>(error)
                &&& final(access)@ == old(access)@
            },
            None => {
                &&& borrow is Ok
                &&& fetched_mut(ids, fetch, borrow->Ok_0)
                &&& final(access)@ == after_write(ids, old(access)@, borrow->Ok_0 is Some)
            },
        },
{
    match ids {
        None => Ok(None),
        Some(ids) => {
            let component_id = ids.component_id;
            let value = || -> (value: Option<Mut<'v, T>>)
                requires
                    call_requires(fetch, (component_id,)),
                ensures
                    call_ensures(fetch, (component_id,), value),
            {
                fetch(component_id)
            };
            WorldBorrowMut::try_new(value, ids.archetype_component_id, access)
        },
    }
}

impl World {
    /// Opens a cell on the world.
    pub fn cell(&mut self) -> (cell: WorldCell<'_>)
        requires
            old(self).wf(),
        ensures
            cell.wf(),
            cell.opened_on(*old(self)),
            *final(cell.world) == *final(self),
    {
        WorldCell::new(self)
    }
}

impl<'w> WorldCell<'w> {
    /// The world as it is now.
    pub open spec fn now(&self) -> World {
        *self.world
    }

    /// The world and the record of accesses are in order.
    pub open spec fn wf(&self) -> bool {
        self.now().wf() && self.access.wf()
    }

    /// The cell was just opened on `world`: it has the record of accesses that the world kept, and
    /// the world has an empty one. Nothing else is changed.
    pub open spec fn opened_on(&self, world: World) -> bool {
        &&& self.access@ == world.archetype_component_access@
        &&& self.now().archetype_component_access@ == Map::<usize, usize>::empty()
        &&& self.now().components == world.components
        &&& self.now().storages == world.storages
        &&& self.now().archetype_component_count == world.archetype_component_count
    }

    /// `world` is the world of this cell after the cell is closed: it has the record of accesses
    /// of the cell. Nothing else is changed.
    pub open spec fn closed_into(&self, world: World) -> bool {
        &&& world.archetype_component_access@ == self.access@
        &&& world.components == self.now().components
        &&& world.storages == self.now().storages
        &&& world.archetype_component_count == self.now().archetype_component_count
    }

    /// Opens a cell on `world`. The cell takes over the record of accesses that the world keeps,
    /// and leaves it an empty one.
    pub fn new(world: &'w mut World) -> (cell: Self)
        requires
            old(world).wf(),
        ensures
            cell.wf(),
            cell.opened_on(*old(world)),
            *final(cell.world) == *final(world),
    {
        let mut access = ArchetypeComponentAccess::new();
        std::mem::swap(&mut world.archetype_component_access, &mut access);
        WorldCell { world, access }
    }

    /// Closes the cell and gives its record of accesses back to the world.
    pub fn drop(self)
        requires
            self.wf(),
        ensures
            final(self.world).wf(),
            self.closed_into(*final(self.world)),
    {
        let mut access = self.access;
        std::mem::swap(&mut self.world.archetype_component_access, &mut access);
    }

    /// The identifiers of the resource of the type `type_id`.
    fn resource_ids(&self, type_id: TypeId) -> (ids: Option<ResourceIds>)
        requires
            self.wf(),
        ensures
            ids == self.now().resource_entry(type_id),
    {
        let component_id = self.world.components.get_resource_id(type_id)?;
        let archetype_component_id = self.world.storages.resources.get(
            component_id.index(),
        )?.id();
        Some(ResourceIds { component_id, archetype_component_id })
    }

    /// The identifiers of the non-send resource of the type `type_id`.
    fn non_send_resource_ids(&self, type_id: TypeId) -> (ids: Option<ResourceIds>)
        requires
            self.wf(),
        ensures
            ids == self.now().non_send_resource_entry(type_id),
    {
        let component_id = self.world.components.get_resource_id(type_id)?;
        let archetype_component_id = self.world.storages.non_send_resources.get(
            component_id.index(),
        )?.id();
        Some(ResourceIds { component_id, archetype_component_id })
    }

    /// Asks for an immutable reference to the resource of the type `type_id`. The request is
    /// refused if it violates Rust's mutability rules; then nothing is fetched.
    pub fn try_get_resource<'v, T: 'v, F: FnOnce(ComponentId) -> Option<&'v T>>(
        &mut self,
        type_id: TypeId,
        fetch: F,
    ) -> (borrow: Result<Option<WorldBorrow<'v, T>>, BorrowError>)
        requires
            old(self).wf(),
            ({
                let ids = old(self).now().resource_entry(type_id);
                ids is Some && read_refused(ids, old(self).access@) is None ==> call_requires(
                    fetch,
                    (ids->0.component_id,),
                )
            }),
        ensures
            final(self).wf(),
            final(self).world == old(self).world,
            ({
                let ids = old(self).now().resource_entry(type_id);
                match read_refused(ids, old(self).access@) {
                    Some(error) => {
                        &&& borrow == Err::<Option<WorldBorrow<'v, T>>, BorrowError>(error)
                        &&& final(self).access@ == old(self).access@
                    },
                    None => {
                        &&& borrow is Ok
                        &&& fetched(ids, fetch, borrow->Ok_0)
                        &&& final(self).access@ == after_read(ids, old(self).access@, borrow->Ok_0 is Some)
                    },
                }
            }),
    {
        let ids = self.resource_ids(type_id);
        read_ids(ids, fetch, &mut self.access)
    }

    /// Gets a reference to the resource of the given type.
    ///
    /// There is no borrow of a resource without a value, and access to it is given back.
    pub fn get_resource<'v, T: 'v, F: FnOnce(ComponentId) -> Option<&'v T>>(
        &mut self,
        type_id: TypeId,
        fetch: F,
    ) -> (borrow: Option<WorldBorrow<'v, T>>)
        requires
            old(self).wf(),
            read_refused(old(self).now().resource_entry(type_id), old(self).access@) is None,
            old(self).now().resource_entry(type_id) matches Some(ids) ==> call_requires(
                fetch,
                (ids.component_id,),
            ),
        ensures
            final(self).wf(),
            final(self).world == old(self).world,
            fetched(old(self).now().resource_entry(type_id), fetch, borrow),
            final(self).access@ == after_read(
                old(self).now().resource_entry(type_id),
                old(self).access@,
                borrow is Some,
            ),
    {
        self.try_get_resource(type_id, fetch).unwrap()
    }

    /// Gets a reference to the resource of the given type, which exists. Use
    /// [`get_resource`](WorldCell::get_resource) instead if it may be missing.
    pub fn resource<'v, T: 'v, F: FnOnce(ComponentId) -> Option<&'v T>>(
        &mut self,
        type_id: TypeId,
        fetch: F,
    ) -> (borrow: WorldBorrow<'v, T>)
        requires
            old(self).wf(),
            read_refused(old(self).now().resource_entry(type_id), old(self).access@) is None,
            old(self).now().resource_entry(type_id) matches Some(ids) && {
                &&& call_requires(fetch, (ids.component_id,))
                &&& forall|value: Option<&'v T>| #[trigger]
                    call_ensures(fetch, (ids.component_id,), value) ==> value is Some
            },
        ensures
            final(self).wf(),
            final(self).world == old(self).world,
            fetched(old(self).now().resource_entry(type_id), fetch, Some(borrow)),
            final(self).access@ == after_read(
                old(self).now().resource_entry(type_id),
                old(self).access@,
                true,
            ),
    {
        self.get_resource(type_id, fetch).unwrap()
    }

    /// Asks for a mutable reference to the resource of the type `type_id`. The request is
    /// refused if it violates Rust's mutability rules; then nothing is fetched.
    pub fn try_get_resource_mut<'v, T: 'v, F: FnOnce(ComponentId) -> Option<Mut<'v, T>>>(
        &mut self,
        type_id: TypeId,
        fetch: F,
    ) -> (borrow: Result<Option<WorldBorrowMut<'v, T>>, BorrowError>)
        requires
            old(self).wf(),
            ({
                let ids = old(self).now().resource_entry(type_id);
                ids is Some && write_refused(ids, old(self).access@) is None ==> call_requires(
                    fetch,
                    (ids->0.component_id,),
                )
            }),
        ensures
            final(self).wf(),
            final(self).world == old(self).world,
            ({
                let ids = old(self).now().resource_entry(type_id);
                match write_refused(ids, old(self).access@) {
                    Some(error) => {
                        &&& borrow == Err::<Option<WorldBorrowMut<'v, T>>, BorrowError>(error)
                        &&& final(self).access@ == old(self).access@
                    },
                    None => {
                        &&& borrow is Ok
                        &&& fetched_mut(ids, fetch, borrow->Ok_0)
                        &&& final(self).access@ == after_write(ids, old(self).access@, borrow->Ok_0 is Some)
                    },
                }
            }),
    {
        let ids = self.resource_ids(type_id);
        write_ids(ids, fetch, &mut self.access)
    }

    /// Gets a mutable reference to the resource of the given type.
    ///
    /// There is no borrow of a resource without a value, and access to it is given back.
    pub fn get_resource_mut<'v, T: 'v, F: FnOnce(ComponentId) -> Option<Mut<'v, T>>>(
        &mut self,
        type_id: TypeId,
        fetch: F,
    ) -> (borrow: Option<WorldBorrowMut<'v, T>>)
        requires
            old(self).wf(),
            write_refused(old(self).now().resource_entry(type_id), old(self).access@) is None,
            old(self).now().resource_entry(type_id) matches Some(ids) ==> call_requires(
                fetch,
                (ids.component_id,),
            ),
        ensures
            final(self).wf(),
            final(self).world == old(self).world,
            fetched_mut(old(self).now().resource_entry(type_id), fetch, borrow),
            final(self).access@ == after_write(
                old(self).now().resource_entry(type_id),
                old(self).access@,
                borrow is Some,
            ),
    {
        self.try_get_resource_mut(type_id, fetch).unwrap()
    }

    /// Gets a mutable reference to the resource of the given type, which exists. Use
    /// [`get_resource_mut`](WorldCell::get_resource_mut) instead if it may be missing.
    pub fn resource_mut<'v, T: 'v, F: FnOnce(ComponentId) -> Option<Mut<'v, T>>>(
        &mut self,
        type_id: TypeId,
        fetch: F,
    ) -> (borrow: WorldBorrowMut<'v, T>)
        requires
            old(self).wf(),
            write_refused(old(self).now().resource_entry(type_id), old(self).access@) is None,
            old(self).now().resource_entry(type_id) matches Some(ids) && {
                &&& call_requires(fetch, (ids.component_id,))
                &&& forall|value: Option<Mut<'v, T>>| #[trigger]
                    call_ensures(fetch, (ids.component_id,), value) ==> value is Some
            },
        ensures
            final(self).wf(),
            final(self).world == old(self).world,
            fetched_mut(old(self).now().resource_entry(type_id), fetch, Some(borrow)),
            final(self).access@ == after_write(
                old(self).now().resource_entry(type_id),
                old(self).access@,
                true,
            ),
    {
        self.get_resource_mut(type_id, fetch).unwrap()
    }

    /// Asks for an immutable reference to the non-send resource of the type `type_id`. The request
    /// is refused if it violates Rust's mutability rules; then nothing is fetched.
    pub fn try_get_non_send_resource<'v, T: 'v, F: FnOnce(ComponentId) -> Option<&'v T>>(
        &mut self,
        type_id: TypeId,
        fetch: F,
    ) -> (borrow: Result<Option<WorldBorrow<'v, T>>, BorrowError>)
        requires
            old(self).wf(),
            ({
                let ids = old(self).now().non_send_resource_entry(type_id);
                ids is Some && read_refused(ids, old(self).access@) is None ==> call_requires(
                    fetch,
                    (ids->0.component_id,),
                )
            }),
        ensures
            final(self).wf(),
            final(self).world == old(self).world,
            ({
                let ids = old(self).now().non_send_resource_entry(type_id);
                match read_refused(ids, old(self).access@) {
                    Some(error) => {
                        &&& borrow == Err::<Option<WorldBorrow<'v, T>>, BorrowError>(error)
                        &&& final(self).access@ == old(self).access@
                    },
                    None => {
                        &&& borrow is Ok
                        &&& fetched(ids, fetch, borrow->Ok_0)
                        &&& final(self).access@ == after_read(ids, old(self).access@, borrow->Ok_0 is Some)
                    },
                }
            }),
    {
        let ids = self.non_send_resource_ids(type_id);
        read_ids(ids, fetch, &mut self.access)
    }

    /// Gets an immutable reference to the non-send resource of the given type, if it exists.
    ///
    /// There is no borrow of a resource without a value, and access to it is given back.
    pub fn get_non_send_resource<'v, T: 'v, F: FnOnce(ComponentId) -> Option<&'v T>>(
        &mut self,
        type_id: TypeId,
        fetch: F,
    ) -> (borrow: Option<WorldBorrow<'v, T>>)
        requires
            old(self).wf(),
            read_refused(old(self).now().non_send_resource_entry(type_id), old(self).access@) is None,
            old(self).now().non_send_resource_entry(type_id) matches Some(ids) ==> call_requires(
                fetch,
                (ids.component_id,),
            ),
        ensures
            final(self).wf(),
            final(self).world == old(self).world,
            fetched(old(self).now().non_send_resource_entry(type_id), fetch, borrow),
            final(self).access@ == after_read(
                old(self).now().non_send_resource_entry(type_id),
                old(self).access@,
                borrow is Some,
            ),
    {
        self.try_get_non_send_resource(type_id, fetch).unwrap()
    }

    /// Gets an immutable reference to the non-send resource of the given type, which exists. Use
    /// [`get_non_send_resource`](WorldCell::get_non_send_resource) instead if it may be missing.
    pub fn non_send_resource<'v, T: 'v, F: FnOnce(ComponentId) -> Option<&'v T>>(
        &mut self,
        type_id: TypeId,
        fetch: F,
    ) -> (borrow: WorldBorrow<'v, T>)
        requires
            old(self).wf(),
            read_refused(old(self).now().non_send_resource_entry(type_id), old(self).access@) is None,
            old(self).now().non_send_resource_entry(type_id) matches Some(ids) && {
                &&& call_requires(fetch, (ids.component_id,))
                &&& forall|value: Option<&'v T>| #[trigger]
                    call_ensures(fetch, (ids.component_id,), value) ==> value is Some
            },
        ensures
            final(self).wf(),
            final(self).world == old(self).world,
            fetched(old(self).now().non_send_resource_entry(type_id), fetch, Some(borrow)),
            final(self).access@ == after_read(
                old(self).now().non_send_resource_entry(type_id),
                old(self).access@,
                true,
            ),
    {
        self.get_non_send_resource(type_id, fetch).unwrap()
    }

    /// Asks for a mutable reference to the non-send resource of the type `type_id`. The request is
    /// refused if it violates Rust's mutability rules; then nothing is fetched.
    pub fn try_get_non_send_resource_mut<'v, T: 'v, F: FnOnce(ComponentId) -> Option<Mut<'v, T>>>(
        &mut self,
        type_id: TypeId,
        fetch: F,
    ) -> (borrow: Result<Option<WorldBorrowMut<'v, T>>, BorrowError>)
        requires
            old(self).wf(),
            ({
                let ids = old(self).now().non_send_resource_entry(type_id);
                ids is Some && write_refused(ids, old(self).access@) is None ==> call_requires(
                    fetch,
                    (ids->0.component_id,),
                )
            }),
        ensures
            final(self).wf(),
            final(self).world == old(self).world,
            ({
                let ids = old(self).now().non_send_resource_entry(type_id);
                match write_refused(ids, old(self).access@) {
                    Some(error) => {
                        &&& borrow == Err::<Option<WorldBorrowMut<'v, T>>, BorrowError>(error)
                        &&& final(self).access@ == old(self).access@
                    },
                    None => {
                        &&& borrow is Ok
                        &&& fetched_mut(ids, fetch, borrow->Ok_0)
                        &&& final(self).access@ == after_write(ids, old(self).access@, borrow->Ok_0 is Some)
                    },
                }
            }),
    {
        let ids = self.non_send_resource_ids(type_id);
        write_ids(ids, fetch, &mut self.access)
    }

    /// Gets a mutable reference to the non-send resource of the given type, if it exists.
    ///
    /// There is no borrow of a resource without a value, and access to it is given back.
    pub fn get_non_send_resource_mut<'v, T: 'v, F: FnOnce(ComponentId) -> Option<Mut<'v, T>>>(
        &mut self,
        type_id: TypeId,
        fetch: F,
    ) -> (borrow: Option<WorldBorrowMut<'v, T>>)
        requires
            old(self).wf(),
            write_refused(old(self).now().non_send_resource_entry(type_id), old(self).access@) is None,
            old(self).now().non_send_resource_entry(type_id) matches Some(ids) ==> call_requires(
                fetch,
                (ids.component_id,),
            ),
        ensures
            final(self).wf(),
            final(self).world == old(self).world,
            fetched_mut(old(self).now().non_send_resource_entry(type_id), fetch, borrow),
            final(self).access@ == after_write(
                old(self).now().non_send_resource_entry(type_id),
                old(self).access@,
                borrow is Some,
            ),
    {
        self.try_get_non_send_resource_mut(type_id, fetch).unwrap()
    }

    /// Gets a mutable reference to the non-send resource of the given type, which exists. Use
    /// [`get_non_send_resource_mut`](WorldCell::get_non_send_resource_mut) instead if it may be
    /// missing.
    pub fn non_send_resource_mut<'v, T: 'v, F: FnOnce(ComponentId) -> Option<Mut<'v, T>>>(
        &mut self,
        type_id: TypeId,
        fetch: F,
    ) -> (borrow: WorldBorrowMut<'v, T>)
        requires
            old(self).wf(),
            write_refused(old(self).now().non_send_resource_entry(type_id), old(self).access@) is None,
            old(self).now().non_send_resource_entry(type_id) matches Some(ids) && {
                &&& call_requires(fetch, (ids.component_id,))
                &&& forall|value: Option<Mut<'v, T>>| #[trigger]
                    call_ensures(fetch, (ids.component_id,), value) ==> value is Some
            },
        ensures
            final(self).wf(),
            final(self).world == old(self).world,
            fetched_mut(old(self).now().non_send_resource_entry(type_id), fetch, Some(borrow)),
            final(self).access@ == after_write(
                old(self).now().non_send_resource_entry(type_id),
                old(self).access@,
                true,
            ),
    {
        self.get_non_send_resource_mut(type_id, fetch).unwrap()
    }

    /// Sends a batch of events to the queue of the type `type_id`. Returns whether there is such a
    /// queue. The request is refused if the queue is being accessed; then nothing is fetched.
    ///
    /// The events are drawn from `events` only once the queue is at hand: if there is none, or the
    /// request is refused, none are drawn.
    pub fn try_send_event_batch<
        'v,
        E: 'v,
        F: FnOnce(ComponentId) -> Option<Mut<'v, Events<E>>>,
        G: FnOnce() -> Vec<E>,
    >(&mut self, type_id: TypeId, fetch: F, events: G) -> (sent: Result<bool, BorrowError>)
        requires
            old(self).wf(),
            ({
                let ids = old(self).now().resource_entry(type_id);
                ids is Some && write_refused(ids, old(self).access@) is None ==> {
                    &&& call_requires(fetch, (ids->0.component_id,))
                    &&& (exists|queue: Mut<'v, Events<E>>| #[trigger]
                        call_ensures(fetch, (ids->0.component_id,), Some(queue))) ==> call_requires(
                        events,
                        (),
                    )
                }
            }),
        ensures
            final(self).wf(),
            final(self).world == old(self).world,
            match write_refused(old(self).now().resource_entry(type_id), old(self).access@) {
                Some(error) => {
                    &&& sent == Err::<bool, BorrowError>(error)
                    &&& final(self).access@ == old(self).access@
                },
                None => sent is Ok,
            },
            sent is Ok ==> match old(self).now().resource_entry(type_id) {
                None => !sent->Ok_0 && final(self).access@ == old(self).access@,
                Some(ids) => {
                    &&& final(self).access@ == access::after_drop_write(
                        old(self).access@,
                        ids.archetype_component_id,
                    )
                    &&& exists|queue: Option<Mut<'v, Events<E>>>| #[trigger]
                        call_ensures(fetch, (ids.component_id,), queue) && match queue {
                            Some(queue) => {
                                &&& sent->Ok_0
                                &&& *final(queue.ticks.changed) == queue.ticks.this_run
                                &&& exists|drawn: Vec<E>| #[trigger]
                                    call_ensures(events, (), drawn) && final(queue.value).events@
                                        == queue.now().events@ + drawn@
                            },
                            None => !sent->Ok_0,
                        }
                },
            },
    {
        match self.try_get_resource_mut(type_id, fetch) {
            Err(error) => Err(error),
            Ok(None) => Ok(false),
            Ok(Some(mut queue)) => {
                queue.deref_mut().extend(events());
                queue.drop(&mut self.access);
                Ok(true)
            },
        }
    }

    /// Sends a batch of events to the queue of the type `type_id`. Returns whether there is such a
    /// queue.
    ///
    /// The events are drawn from `events` only once the queue is at hand: if there is none, none
    /// are drawn.
    pub fn send_event_batch<
        'v,
        E: 'v,
        F: FnOnce(ComponentId) -> Option<Mut<'v, Events<E>>>,
        G: FnOnce() -> Vec<E>,
    >(&mut self, type_id: TypeId, fetch: F, events: G) -> (sent: bool)
        requires
            old(self).wf(),
            write_refused(old(self).now().resource_entry(type_id), old(self).access@) is None,
            old(self).now().resource_entry(type_id) matches Some(ids) ==> call_requires(
                fetch,
                (ids.component_id,),
            ),
            old(self).now().resource_entry(type_id) matches Some(ids) ==> (
            exists|queue: Mut<'v, Events<E>>| #[trigger]
                call_ensures(fetch, (ids.component_id,), Some(queue))) ==> call_requires(events, ()),
        ensures
            final(self).wf(),
            final(self).world == old(self).world,
            match old(self).now().resource_entry(type_id) {
                None => !sent && final(self).access@ == old(self).access@,
                Some(ids) => {
                    &&& final(self).access@ == access::after_drop_write(
                        old(self).access@,
                        ids.archetype_component_id,
                    )
                    &&& exists|queue: Option<Mut<'v, Events<E>>>| #[trigger]
                        call_ensures(fetch, (ids.component_id,), queue) && match queue {
                            Some(queue) => {
                                &&& sent
                                &&& *final(queue.ticks.changed) == queue.ticks.this_run
                                &&& exists|drawn: Vec<E>| #[trigger]
                                    call_ensures(events, (), drawn) && final(queue.value).events@
                                        == queue.now().events@ + drawn@
                            },
                            None => !sent,
                        }
                },
            },
    {
        self.try_send_event_batch(type_id, fetch, events).unwrap()
    }

    /// Sends an event to the queue of the type `type_id`. Returns whether there is such a queue:
    /// the event is lost if there is none.
    pub fn send_event<'v, E: 'v, F: FnOnce(ComponentId) -> Option<Mut<'v, Events<E>>>>(
        &mut self,
        type_id: TypeId,
        fetch: F,
        event: E,
    ) -> (sent: bool)
        requires
            old(self).wf(),
            write_refused(old(self).now().resource_entry(type_id), old(self).access@) is None,
            old(self).now().resource_entry(type_id) matches Some(ids) ==> call_requires(
                fetch,
                (ids.component_id,),
            ),
        ensures
            final(self).wf(),
            final(self).world == old(self).world,
            match old(self).now().resource_entry(type_id) {
                None => !sent && final(self).access@ == old(self).access@,
                Some(ids) => {
                    &&& final(self).access@ == access::after_drop_write(
                        old(self).access@,
                        ids.archetype_component_id,
                    )
                    &&& exists|queue: Option<Mut<'v, Events<E>>>| #[trigger]
                        call_ensures(fetch, (ids.component_id,), queue) && match queue {
                            Some(queue) => {
                                &&& sent
                                &&& *final(queue.ticks.changed) == queue.ticks.this_run
                                &&& final(queue.value).events@ == queue.now().events@.push(event)
                            },
                            None => !sent,
                        }
                },
            },
    {
        let events = || -> (drawn: Vec<E>)
            ensures
                drawn@ == seq![event],
        {
            let mut drawn: Vec<E> = Vec::new();
            drawn.push(event);
            drawn
        };
        self.send_event_batch(type_id, fetch, events)
    }

    /// Sends the default value of `E` to the queue of the type `type_id`. Returns whether there is
    /// such a queue: the event is lost if there is none.
    pub fn send_event_default<
        'v,
        E: Default + 'v,
        F: FnOnce(ComponentId) -> Option<Mut<'v, Events<E>>>,
    >(&mut self, type_id: TypeId, fetch: F) -> (sent: bool)
        requires
            old(self).wf(),
            write_refused(old(self).now().resource_entry(type_id), old(self).access@) is None,
            old(self).now().resource_entry(type_id) matches Some(ids) ==> call_requires(
                fetch,
                (ids.component_id,),
            ),
        ensures
            final(self).wf(),
            final(self).world == old(self).world,
            exists|event: E| #[trigger]
                call_ensures(E::default, (), event) && match old(self).now().resource_entry(
                type_id,
            ) {
                None => !sent && final(self).access@ == old(self).access@,
                Some(ids) => {
                    &&& final(self).access@ == access::after_drop_write(
                        old(self).access@,
                        ids.archetype_component_id,
                    )
                    &&& exists|queue: Option<Mut<'v, Events<E>>>| #[trigger]
                        call_ensures(fetch, (ids.component_id,), queue) && match queue {
                            Some(queue) => {
                                &&& sent
                                &&& *final(queue.ticks.changed) == queue.ticks.this_run
                                &&& final(queue.value).events@ == queue.now().events@.push(event)
                            },
                            None => !sent,
                        }
                },
            },
    {
        self.send_event(type_id, fetch, E::default())
    }
}

} // verus!

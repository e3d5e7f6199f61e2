//! The world: which resources there are, and under what identifiers they are accessed.

use vstd::prelude::*;

use crate::access::ArchetypeComponentAccess;
use crate::archetype::ArchetypeComponentId;
use crate::component::{ComponentId, Components, TypeId};
use crate::sparse_set::SparseSet;

verus! {

/// What is kept about a resource besides its value.
pub struct ResourceData {
    pub id: ArchetypeComponentId,
}

impl ResourceData {
    /// The identifier under which access to the resource is recorded.
    pub fn id(&self) -> (id: ArchetypeComponentId)
        ensures
            id == self.id,
    {
        self.id
    }
}

/// The resources, by the identifier of their type.
pub struct Storages {
    /// Those that may be sent to another thread.
    pub resources: SparseSet<ResourceData>,
    /// Those that may not.
    pub non_send_resources: SparseSet<ResourceData>,
}

/// The identifiers of a resource: that of its type, and the one under which access to it is
/// recorded.
pub struct ResourceIds {
    pub component_id: ComponentId,
    pub archetype_component_id: ArchetypeComponentId,
}

/// Resources, and the record of who is accessing them.
pub struct World {
    pub components: Components,
    pub storages: Storages,
    /// The record of the accesses of past cells, kept to be used again.
    pub archetype_component_access: ArchetypeComponentAccess,
    /// How many identifiers for access were given out.
    pub archetype_component_count: usize,
}

/// The identifiers of the resource of the type `type_id` in `data`, if there is one.
pub open spec fn entry(
    components: Components,
    data: Map<usize, ResourceData>,
    type_id: TypeId,
) -> Option<ResourceIds> {
    match components.resource_id(type_id) {
        Some(component_id) => if data.contains_key(component_id.index()) {
            Some(
                ResourceIds {
                    component_id,
                    archetype_component_id: data[component_id.index()].id,
                },
            )
        } else {
            None
        },
        None => None,
    }
}

/// The resources in `data` are of types below `types`, and have different identifiers for access,
/// all of them below `count`.
pub open spec fn ids_given_out(data: Map<usize, ResourceData>, types: usize, count: usize) -> bool {
    &&& forall|c: usize| #[trigger]
        data.contains_key(c) ==> c < types && data[c].id.index() < count
    &&& forall|c: usize, d: usize|
        c != d && #[trigger] data.contains_key(c) && #[trigger] data.contains_key(d)
            ==> data[c].id.index() != data[d].id.index()
}

/// No resource in `data` has the same identifier for access as one in `other`.
pub open spec fn ids_disjoint(
    data: Map<usize, ResourceData>,
    other: Map<usize, ResourceData>,
) -> bool {
    forall|c: usize, d: usize| #[trigger]
        data.contains_key(c) && #[trigger] other.contains_key(d) ==> data[c].id.index()
            != other[d].id.index()
}

/// How making room for a resource changes its identifiers and the number of those given out for
/// access. A resource that was there keeps its identifiers; a new one is accessed under the next
/// number.
pub open spec fn entry_added(
    before: Option<ResourceIds>,
    after: Option<ResourceIds>,
    component_id: ComponentId,
    count_before: usize,
    count_after: usize,
) -> bool {
    match before {
        Some(known) => after == Some(known) && count_after == count_before,
        None => {
            &&& after is Some
            &&& after->0.component_id == component_id
            &&& after->0.archetype_component_id.index() == count_before
            &&& count_after == count_before + 1
        },
    }
}

/// Makes room for the resource `component_id` in `data`, to be accessed under the number `next`.
/// Returns whether there was none yet.
fn init_data(data: &mut SparseSet<ResourceData>, component_id: ComponentId, next: usize) -> (new:
    bool)
    requires
        old(data).wf(),
        !old(data)@.contains_key(component_id.index()) ==> next < usize::MAX,
    ensures
        final(data).wf(),
        new == !old(data)@.contains_key(component_id.index()),
        match new {
            true => exists|added: ResourceData| #[trigger]
                old(data)@.insert(component_id.index(), added) == final(data)@ && added.id.index()
                    == next,
            false => final(data)@ == old(data)@,
        },
{
    if data.contains(component_id.index()) {
        return false;
    }
    let added = ResourceData { id: ArchetypeComponentId::new(next) };
    let make = || -> (made: ResourceData)
        ensures
            made == added,
    {
        added
    };
    data.get_or_insert_with(component_id.index(), make);
    true
}

impl World {
    /// The identifiers of the resource of the type `type_id`.
    pub open spec fn resource_entry(&self, type_id: TypeId) -> Option<ResourceIds> {
        entry(self.components, self.storages.resources@, type_id)
    }

    /// The identifiers of the non-send resource of the type `type_id`.
    pub open spec fn non_send_resource_entry(&self, type_id: TypeId) -> Option<ResourceIds> {
        entry(self.components, self.storages.non_send_resources@, type_id)
    }

    /// The world is in order. In particular, access to different resources is recorded under
    /// different identifiers.
    pub open spec fn wf(&self) -> bool {
        &&& self.components.wf()
        &&& self.storages.resources.wf()
        &&& self.storages.non_send_resources.wf()
        &&& self.archetype_component_access.wf()
        &&& ids_given_out(
            self.storages.resources@,
            self.components.count(),
            self.archetype_component_count,
        )
        &&& ids_given_out(
            self.storages.non_send_resources@,
            self.components.count(),
            self.archetype_component_count,
        )
        &&& ids_disjoint(self.storages.resources@, self.storages.non_send_resources@)
    }

    /// A world without resources.
    pub fn new() -> (world: Self)
        ensures
            world.wf(),
            forall|t: TypeId| world.resource_entry(t) is None,
            forall|t: TypeId| world.non_send_resource_entry(t) is None,
            world.archetype_component_access@ == Map::<usize, usize>::empty(),
            forall|t: TypeId| world.components.resource_id(t) is None,
            world.storages.resources@ == Map::<usize, ResourceData>::empty(),
            world.storages.non_send_resources@ == Map::<usize, ResourceData>::empty(),
            world.components.count() == 0,
            world.archetype_component_count == 0,
    {
        World {
            components: Components::new(),
            storages: Storages {
                resources: SparseSet::new(),
                non_send_resources: SparseSet::new(),
            },
            archetype_component_access: ArchetypeComponentAccess::new(),
            archetype_component_count: 0,
        }
    }

    /// `after` is this world once the type `type_id` is sure to have an identifier, which is
    /// `component_id`. A type that had none is given the next one.
    pub open spec fn type_added(
        &self,
        after: World,
        type_id: TypeId,
        component_id: ComponentId,
    ) -> bool {
        &&& after.components.resource_id(type_id) == Some(component_id)
        &&& match self.components.resource_id(type_id) {
            Some(known) => component_id == known && after.components.count()
                == self.components.count(),
            None => component_id.index() == self.components.count() && after.components.count()
                == self.components.count() + 1,
        }
        &&& forall|t: TypeId|
            t != type_id ==> #[trigger] after.components.resource_id(t)
                == self.components.resource_id(t)
    }

    /// Makes room for a resource of the type `type_id`, unless there is some. Returns the
    /// identifier of the type.
    pub fn init_resource(&mut self, type_id: TypeId) -> (component_id: ComponentId)
        requires
            old(self).wf(),
            old(self).components.resource_id(type_id) is None ==> old(self).components.count()
                < usize::MAX,
            old(self).resource_entry(type_id) is None ==> old(self).archetype_component_count
                < usize::MAX,
        ensures
            final(self).wf(),
            final(self).archetype_component_access@ == old(self).archetype_component_access@,
            old(self).type_added(*final(self), type_id, component_id),
            final(self).components.resource_id(type_id) == Some(component_id),
            final(self).storages.resources@.contains_key(component_id.index()),
            forall|c: usize|
                c != component_id.index() ==> final(self).storages.resources@.contains_key(c)
                    == #[trigger] old(self).storages.resources@.contains_key(c),
            forall|c: usize| #[trigger]
                old(self).storages.resources@.contains_key(c) ==> final(self).storages.resources@[c]
                    == old(self).storages.resources@[c],
            final(self).storages.non_send_resources@ == old(self).storages.non_send_resources@,
            forall|t: TypeId|
                t != type_id ==> final(self).resource_entry(t) == old(self).resource_entry(t),
            forall|t: TypeId|
                final(self).non_send_resource_entry(t) == old(self).non_send_resource_entry(t),
            entry_added(
                old(self).resource_entry(type_id),
                final(self).resource_entry(type_id),
                component_id,
                old(self).archetype_component_count,
                final(self).archetype_component_count,
            ),
    {
        let component_id = self.components.init_resource(type_id);
        if init_data(&mut self.storages.resources, component_id, self.archetype_component_count) {
            self.archetype_component_count = self.archetype_component_count + 1;
        }
        component_id
    }

    /// Makes room for a non-send resource of the type `type_id`, unless there is some. Returns the
    /// identifier of the type.
    pub fn init_non_send_resource(&mut self, type_id: TypeId) -> (component_id: ComponentId)
        requires
            old(self).wf(),
            old(self).components.resource_id(type_id) is None ==> old(self).components.count()
                < usize::MAX,
            old(self).non_send_resource_entry(type_id) is None ==> old(
                self,
            ).archetype_component_count < usize::MAX,
        ensures
            final(self).wf(),
            final(self).archetype_component_access@ == old(self).archetype_component_access@,
            old(self).type_added(*final(self), type_id, component_id),
            final(self).components.resource_id(type_id) == Some(component_id),
            final(self).storages.non_send_resources@.contains_key(component_id.index()),
            forall|c: usize|
                c != component_id.index() ==> final(self).storages.non_send_resources@.contains_key(
                    c,
                ) == #[trigger] old(self).storages.non_send_resources@.contains_key(c),
            forall|c: usize| #[trigger]
                old(self).storages.non_send_resources@.contains_key(c)
                    ==> final(self).storages.non_send_resources@[c]
                    == old(self).storages.non_send_resources@[c],
            final(self).storages.resources@ == old(self).storages.resources@,
            forall|t: TypeId| final(self).resource_entry(t) == old(self).resource_entry(t),
            forall|t: TypeId|
                t != type_id ==> final(self).non_send_resource_entry(t) == old(
                    self,
                ).non_send_resource_entry(t),
            entry_added(
                old(self).non_send_resource_entry(type_id),
                final(self).non_send_resource_entry(type_id),
                component_id,
                old(self).archetype_component_count,
                final(self).archetype_component_count,
            ),
    {
        let component_id = self.components.init_resource(type_id);
        if init_data(
            &mut self.storages.non_send_resources,
            component_id,
            self.archetype_component_count,
        ) {
            self.archetype_component_count = self.archetype_component_count + 1;
        }
        component_id
    }

    /// The identifier under which access to the resource `component_id` is recorded, if there is
    /// such a resource.
    pub fn get_resource_archetype_component_id(&self, component_id: ComponentId) -> (id: Option<
        ArchetypeComponentId,
    >)
        requires
            self.wf(),
        ensures
            match id {
                Some(id) => {
                    &&& self.storages.resources@.contains_key(component_id.index())
                    &&& id == self.storages.resources@[component_id.index()].id
                },
                None => !self.storages.resources@.contains_key(component_id.index()),
            },
    {
        match self.storages.resources.get(component_id.index()) {
            Some(data) => Some(data.id()),
            None => None,
        }
    }
}

impl Default for World {
    /// A world without resources.
    fn default() -> (world: Self)
        ensures
            world.wf(),
            forall|t: TypeId| world.resource_entry(t) is None,
            forall|t: TypeId| world.non_send_resource_entry(t) is None,
            world.archetype_component_access@ == Map::<usize, usize>::empty(),
            forall|t: TypeId| world.components.resource_id(t) is None,
            world.storages.resources@ == Map::<usize, ResourceData>::empty(),
            world.storages.non_send_resources@ == Map::<usize, ResourceData>::empty(),
            world.components.count() == 0,
            world.archetype_component_count == 0,
    {
        World::new()
    }
}

} // verus!

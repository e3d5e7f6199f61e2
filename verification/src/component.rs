//! The kinds of resources, and the identifiers given to them.

use std::collections::HashMap;
use vstd::prelude::*;

verus! {

broadcast use vstd::std_specs::hash::group_hash_axioms;

/// Identifies a type of resource. Different types have different numbers.
#[derive(Clone, Copy, Debug, PartialEq, Eq, Structural)]
pub struct TypeId(pub u64);

/// Identifies a type of resource within one world: the place of its data.
///
/// The largest `usize` is not an identifier.
#[derive(Clone, Copy, Debug, PartialEq, Eq, Structural)]
pub struct ComponentId {
    index: usize,
}

impl ComponentId {
    #[verifier::type_invariant]
    spec fn in_range(self) -> bool {
        self.index < usize::MAX
    }

    /// The number behind the identifier.
    pub closed spec fn spec_index(&self) -> usize {
        self.index
    }

    /// The identifier with the given number.
    pub fn new(index: usize) -> (id: Self)
        requires
            index < usize::MAX,
        ensures
            id.index() == index,
    {
        ComponentId { index }
    }

    /// The number behind the identifier.
    #[verifier::when_used_as_spec(spec_index)]
    pub fn index(&self) -> (index: usize)
        ensures
            index == self.index(),
            index < usize::MAX,
    {
        proof {
            use_type_invariant(self);
        }
        self.index
    }
}

/// The types of resources that a world knows, each with its identifier.
pub struct Components {
    resource_indices: HashMap<u64, ComponentId>,
    count: usize,
}

impl Components {
    /// The identifier of `type_id`, if it has one.
    pub closed spec fn resource_id(&self, type_id: TypeId) -> Option<ComponentId> {
        if self.resource_indices@.contains_key(type_id.0) {
            Some(self.resource_indices@[type_id.0])
        } else {
            None
        }
    }

    /// How many identifiers were given out.
    pub closed spec fn count(&self) -> usize {
        self.count
    }

    /// Identifiers are given out in order, and no two types have the same.
    pub open spec fn wf(&self) -> bool {
        &&& forall|t: TypeId| #[trigger]
            self.resource_id(t) is Some ==> self.resource_id(t)->0.index() < self.count()
        &&& forall|s: TypeId, t: TypeId|
            s != t && #[trigger] self.resource_id(s) is Some && #[trigger] self.resource_id(t) is Some
                ==> self.resource_id(s)->0.index() != self.resource_id(t)->0.index()
    }

    /// No types.
    pub fn new() -> (components: Self)
        ensures
            components.wf(),
            forall|t: TypeId| components.resource_id(t) is None,
            components.count() == 0,
    {
        Components { resource_indices: HashMap::new(), count: 0 }
    }

    /// The identifier of `type_id`, if it has one.
    pub fn get_resource_id(&self, type_id: TypeId) -> (id: Option<ComponentId>)
        ensures
            id == self.resource_id(type_id),
    {
        match self.resource_indices.get(&type_id.0) {
            Some(id) => Some(*id),
            None => None,
        }
    }

    /// The identifier of `type_id`. A type that has none yet is given the next one.
    pub fn init_resource(&mut self, type_id: TypeId) -> (id: ComponentId)
        requires
            old(self).wf(),
            old(self).resource_id(type_id) is None ==> old(self).count() < usize::MAX,
        ensures
            final(self).wf(),
            final(self).resource_id(type_id) == Some(id),
            forall|t: TypeId| t != type_id ==> final(self).resource_id(t) == old(self).resource_id(t),
            match old(self).resource_id(type_id) {
                Some(known) => id == known && final(self).count() == old(self).count(),
                None => id.index() == old(self).count() && final(self).count() == old(self).count()
                    + 1,
            },
    {
        match self.get_resource_id(type_id) {
            Some(id) => id,
            None => {
                let id = ComponentId::new(self.count);
                self.resource_indices.insert(type_id.0, id);
                self.count = self.count + 1;
                assert(forall|t: TypeId|
                    t != type_id ==> #[trigger] self.resource_id(t) == old(self).resource_id(t));
                id
            },
        }
    }
}

} // verus!

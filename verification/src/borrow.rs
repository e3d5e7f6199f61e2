//! Borrows of resources, each with the witness that access was granted.

use std::ops::{Deref, DerefMut};
use vstd::prelude::*;

#[allow(unused_imports)]
use crate::access::{self, ArchetypeComponentAccess};
use crate::archetype::ArchetypeComponentId;
use crate::change_detection::Mut;
use crate::error::BorrowError;

verus! {

/// Why a request to read `id` is refused, if it is.
pub open spec fn read_refusal(table: Map<usize, usize>, id: ArchetypeComponentId) -> Option<
    BorrowError,
> {
    if !access::read_granted(table, id) {
        Some(BorrowError::Immutable)
    } else if access::access_count(table, id) == usize::MAX {
        Some(BorrowError::TooManyReaders)
    } else {
        None
    }
}

/// Why a request to write `id` is refused, if it is.
pub open spec fn write_refusal(table: Map<usize, usize>, id: ArchetypeComponentId) -> Option<
    BorrowError,
> {
    if !access::write_granted(table, id) {
        Some(BorrowError::Mutable)
    } else {
        None
    }
}

/// The table after a witness of access to `id`, shared or unique, has gone.
pub open spec fn after_drop(
    table: Map<usize, usize>,
    id: ArchetypeComponentId,
    unique: bool,
) -> Map<usize, usize> {
    if unique {
        access::after_drop_write(table, id)
    } else {
        access::after_drop_read(table, id)
    }
}

/// The table after a request to read `id` that is not refused. If no value is found, the access
/// that was granted is given back.
pub open spec fn after_read_request(
    table: Map<usize, usize>,
    id: ArchetypeComponentId,
    found: bool,
) -> Map<usize, usize> {
    if found {
        access::after_read(table, id)
    } else {
        access::after_drop_read(access::after_read(table, id), id)
    }
}

/// The table after a request to write `id` that is not refused. If no value is found, the access
/// that was granted is given back.
pub open spec fn after_write_request(
    table: Map<usize, usize>,
    id: ArchetypeComponentId,
    found: bool,
) -> Map<usize, usize> {
    if found {
        access::after_write(table, id)
    } else {
        access::after_drop_write(access::after_write(table, id), id)
    }
}

/// The witness that access to a resource was granted: unique access to write it, or else shared
/// access to read it. It is not to be copied: there is one for each granted request.
pub struct WorldBorrowWitness<const UNIQUE: bool> {
    archetype_component_id: ArchetypeComponentId,
}

impl<const UNIQUE: bool> WorldBorrowWitness<UNIQUE> {
    /// What access was granted to.
    pub closed spec fn id(&self) -> ArchetypeComponentId {
        self.archetype_component_id
    }

    /// Gives the access back to `access`, by which it was granted.
    pub fn drop(self, access: &mut ArchetypeComponentAccess)
        requires
            old(access).wf(),
            !UNIQUE ==> access::access_count(old(access)@, self.id()) != access::UNIQUE_ACCESS,
        ensures
            final(access).wf(),
            final(access)@ == after_drop(old(access)@, self.id(), UNIQUE),
    {
        if UNIQUE {
            access.drop_write(self.archetype_component_id);
        } else {
            access.drop_read(self.archetype_component_id);
        }
    }
}

/// A borrow of a resource for reading.
pub struct WorldBorrow<'w, T> {
    value: &'w T,
    witness: WorldBorrowWitness<false>,
}

impl<'w, T> WorldBorrow<'w, T> {
    /// The borrowed value.
    pub closed spec fn value(&self) -> &'w T {
        self.value
    }

    /// What access was granted to.
    pub closed spec fn id(&self) -> ArchetypeComponentId {
        self.witness.id()
    }

    /// The borrowed value, if there is a borrow.
    pub open spec fn value_of(borrow: Option<Self>) -> Option<&'w T> {
        match borrow {
            Some(borrow) => Some(borrow.value()),
            None => None,
        }
    }

    /// Asks `access` for leave to read `archetype_component_id` and, if it is granted, borrows
    /// what `value` fetches. If the request is refused, nothing is fetched. If the request is
    /// granted and there is nothing to fetch, the access is given back.
    pub fn try_new(
        value: impl FnOnce() -> Option<&'w T>,
        archetype_component_id: ArchetypeComponentId,
        access: &mut ArchetypeComponentAccess,
    ) -> (borrow: Result<Option<Self>, BorrowError>)
        requires
            old(access).wf(),
            read_refusal(old(access)@, archetype_component_id) is None ==> call_requires(value, ()),
        ensures
            final(access).wf(),
            match read_refusal(old(access)@, archetype_component_id) {
                Some(error) => {
                    &&& borrow == Err::<Option<Self>, BorrowError>(error)
                    &&& final(access)@ == old(access)@
                },
                None => {
                    &&& borrow is Ok
                    &&& call_ensures(value, (), Self::value_of(borrow->Ok_0))
                    &&& borrow->Ok_0 is Some ==> borrow->Ok_0->0.id() == archetype_component_id
                    &&& final(access)@ == after_read_request(
                        old(access)@,
                        archetype_component_id,
                        borrow->Ok_0 is Some,
                    )
                },
            },
    {
        if access.count(archetype_component_id) == usize::MAX {
            return Err(BorrowError::TooManyReaders);
        }
        if !access.read(archetype_component_id) {
            return Err(BorrowError::Immutable);
        }
        match value() {
            None => {
                access.drop_read(archetype_component_id);
                Ok(None)
            },
            Some(value) => Ok(
                Some(WorldBorrow { value, witness: WorldBorrowWitness { archetype_component_id } }),
            ),
        }
    }

    /// Maps a `WorldBorrow<T>` to `WorldBorrow<U>` by applying a function to derive the borrow.
    pub fn map<U>(this: Self, f: impl FnOnce(&T) -> &U) -> (mapped: WorldBorrow<'w, U>)
        requires
            call_requires(f, (this.value(),)),
        ensures
            call_ensures(f, (this.value(),), mapped.value()),
            mapped.id() == this.id(),
    {
        WorldBorrow { value: f(this.value), witness: this.witness }
    }

    /// Attempts to map a `WorldBorrow<T>` to `WorldBorrow<U>` by applying a fallible function to
    /// derive the borrow. If the transform fails, the original borrow is returned.
    pub fn try_map<U>(this: Self, f: impl FnOnce(&T) -> Option<&U>) -> (mapped: Result<
        WorldBorrow<'w, U>,
        Self,
    >)
        requires
            call_requires(f, (this.value(),)),
        ensures
            match mapped {
                Ok(mapped) => {
                    &&& call_ensures(f, (this.value(),), Some(mapped.value()))
                    &&& mapped.id() == this.id()
                },
                Err(original) => {
                    &&& call_ensures(f, (this.value(),), None::<&U>)
                    &&& original == this
                },
            },
    {
        match f(this.value) {
            None => Err(this),
            Some(value) => Ok(WorldBorrow { value, witness: this.witness }),
        }
    }

    /// What access was granted to.
    pub fn archetype_component_id(&self) -> (id: ArchetypeComponentId)
        ensures
            id == self.id(),
    {
        self.witness.archetype_component_id
    }

    /// Borrows the same value once more.
    pub fn clone(&self, access: &mut ArchetypeComponentAccess) -> (copy: Self)
        requires
            old(access).wf(),
            read_refusal(old(access)@, self.id()) is None,
        ensures
            final(access).wf(),
            copy.value() == self.value(),
            copy.id() == self.id(),
            final(access)@ == access::after_read(old(access)@, self.id()),
    {
        let value = self.value;
        let fetch = || -> (fetched: Option<&'w T>)
            ensures
                fetched == Some(value),
        {
            Some(value)
        };
        let copy = WorldBorrow::try_new(fetch, self.witness.archetype_component_id, access);
        copy.unwrap().unwrap()
    }

    /// Ends the borrow and gives the access back to `access`, by which it was granted.
    pub fn drop(self, access: &mut ArchetypeComponentAccess)
        requires
            old(access).wf(),
            access::access_count(old(access)@, self.id()) != access::UNIQUE_ACCESS,
        ensures
            final(access).wf(),
            final(access)@ == access::after_drop_read(old(access)@, self.id()),
    {
        self.witness.drop(access);
    }
}

impl<'w, T> Deref for WorldBorrow<'w, T> {
    type Target = T;

    /// The borrowed value.
    fn deref(&self) -> (value: &T)
        ensures
            value == self.value(),
    {
        self.value
    }
}

/// A borrow of a resource for writing.
pub struct WorldBorrowMut<'w, T> {
    value: Mut<'w, T>,
    witness: WorldBorrowWitness<true>,
}

impl<'w, T> WorldBorrowMut<'w, T> {
    /// The borrowed value, with the record of its changes.
    pub closed spec fn value(&self) -> Mut<'w, T> {
        self.value
    }

    /// What access was granted to.
    pub closed spec fn id(&self) -> ArchetypeComponentId {
        self.witness.id()
    }

    /// The borrowed value, if there is a borrow.
    pub open spec fn value_of(borrow: Option<Self>) -> Option<Mut<'w, T>> {
        match borrow {
            Some(borrow) => Some(borrow.value()),
            None => None,
        }
    }

    /// Asks `access` for leave to write `archetype_component_id` and, if it is granted, borrows
    /// what `value` fetches. If the request is refused, nothing is fetched. If the request is
    /// granted and there is nothing to fetch, the access is given back.
    pub fn try_new(
        value: impl FnOnce() -> Option<Mut<'w, T>>,
        archetype_component_id: ArchetypeComponentId,
        access: &mut ArchetypeComponentAccess,
    ) -> (borrow: Result<Option<Self>, BorrowError>)
        requires
            old(access).wf(),
            write_refusal(old(access)@, archetype_component_id) is None ==> call_requires(
                value,
                (),
            ),
        ensures
            final(access).wf(),
            match write_refusal(old(access)@, archetype_component_id) {
                Some(error) => {
                    &&& borrow == Err::<Option<Self>, BorrowError>(error)
                    &&& final(access)@ == old(access)@
                },
                None => {
                    &&& borrow is Ok
                    &&& call_ensures(value, (), Self::value_of(borrow->Ok_0))
                    &&& borrow->Ok_0 is Some ==> borrow->Ok_0->0.id() == archetype_component_id
                    &&& final(access)@ == after_write_request(
                        old(access)@,
                        archetype_component_id,
                        borrow->Ok_0 is Some,
                    )
                },
            },
    {
        if !access.write(archetype_component_id) {
            return Err(BorrowError::Mutable);
        }
        match value() {
            None => {
                access.drop_write(archetype_component_id);
                Ok(None)
            },
            Some(value) => Ok(
                Some(
                    WorldBorrowMut { value, witness: WorldBorrowWitness { archetype_component_id } },
                ),
            ),
        }
    }

    /// Maps a `WorldBorrowMut<T>` to `WorldBorrowMut<U>` by applying a function to derive the
    /// borrow. No change is recorded.
    pub fn map<U>(this: Self, f: impl FnOnce(&mut T) -> &mut U) -> (mapped: WorldBorrowMut<'w, U>)
        requires
            call_requires(f, (this.value().value,)),
        ensures
            call_ensures(f, (this.value().value,), mapped.value().value),
            mapped.value().ticks == this.value().ticks,
            mapped.id() == this.id(),
    {
        WorldBorrowMut { value: this.value.map_unchanged(f), witness: this.witness }
    }

    /// Attempts to map a `WorldBorrowMut<T>` to `WorldBorrowMut<U>` by applying a fallible function
    /// to derive the borrow. No change is recorded. If the transform fails, what is left of the
    /// borrow is its witness, with which the access is to be given back.
    pub fn try_map_or_witness<U>(this: Self, f: impl FnOnce(&mut T) -> Option<&mut U>) -> (mapped:
        Result<WorldBorrowMut<'w, U>, WorldBorrowWitness<true>>)
        requires
            call_requires(f, (this.value().value,)),
        ensures
            match mapped {
                Ok(mapped) => {
                    &&& call_ensures(f, (this.value().value,), Some(mapped.value().value))
                    &&& mapped.value().ticks == this.value().ticks
                    &&& mapped.id() == this.id()
                },
                Err(witness) => {
                    &&& call_ensures(f, (this.value().value,), None::<&mut U>)
                    &&& *final(this.value().ticks.changed) == this.value().changed_now()
                    &&& witness.id() == this.id()
                },
            },
    {
        match this.value.try_map_unchanged(f) {
            None => Err(this.witness),
            Some(value) => Ok(WorldBorrowMut { value, witness: this.witness }),
        }
    }

    /// Attempts to map a `WorldBorrowMut<T>` to `WorldBorrowMut<U>` by applying a fallible function
    /// to derive the borrow. No change is recorded. If the transform fails, the borrow ends and
    /// the access is given back to `access`, by which it was granted.
    pub fn try_map<U>(
        this: Self,
        f: impl FnOnce(&mut T) -> Option<&mut U>,
        access: &mut ArchetypeComponentAccess,
    ) -> (mapped: Option<WorldBorrowMut<'w, U>>)
        requires
            old(access).wf(),
            call_requires(f, (this.value().value,)),
        ensures
            final(access).wf(),
            match mapped {
                Some(mapped) => {
                    &&& call_ensures(f, (this.value().value,), Some(mapped.value().value))
                    &&& mapped.value().ticks == this.value().ticks
                    &&& mapped.id() == this.id()
                    &&& final(access)@ == old(access)@
                },
                None => {
                    &&& call_ensures(f, (this.value().value,), None::<&mut U>)
                    &&& *final(this.value().ticks.changed) == this.value().changed_now()
                    &&& final(access)@ == access::after_drop_write(old(access)@, this.id())
                },
            },
    {
        match WorldBorrowMut::try_map_or_witness(this, f) {
            Err(witness) => {
                witness.drop(access);
                None
            },
            Ok(mapped) => Some(mapped),
        }
    }

    /// What access was granted to.
    pub fn archetype_component_id(&self) -> (id: ArchetypeComponentId)
        ensures
            id == self.id(),
    {
        self.witness.archetype_component_id
    }

    /// Ends the borrow and gives the access back to `access`, by which it was granted. The value
    /// stays as it is.
    pub fn drop(self, access: &mut ArchetypeComponentAccess)
        requires
            old(access).wf(),
        ensures
            final(access).wf(),
            final(access)@ == access::after_drop_write(old(access)@, self.id()),
            *final(self.value().value) == self.value().now(),
            *final(self.value().ticks.changed) == self.value().changed_now(),
    {
        self.witness.drop(access);
    }
}

impl<'w, T> Deref for WorldBorrowMut<'w, T> {
    type Target = T;

    /// The borrowed value, to be read.
    fn deref(&self) -> (value: &T)
        ensures
            *value == self.value().now(),
    {
        self.value.deref()
    }
}

impl<'w, T> DerefMut for WorldBorrowMut<'w, T> {
    /// The borrowed value, to be written. Records a change.
    fn deref_mut(&mut self) -> (value: &mut T)
        ensures
            *value == old(self).value().now(),
            final(self).value().now() == *final(value),
            *final(final(self).value().value) == *final(old(self).value().value),
            final(self).value().changed_now() == old(self).value().ticks.this_run,
            *final(final(self).value().ticks.changed) == *final(old(self).value().ticks.changed),
            final(self).value().ticks.this_run == old(self).value().ticks.this_run,
            final(self).id() == old(self).id(),
    {
        self.value.deref_mut()
    }
}

} // verus!

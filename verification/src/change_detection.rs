//! Mutable access that records when it is used.

use std::ops::{Deref, DerefMut};
use vstd::prelude::*;

verus! {

/// Where a change is recorded, and what is recorded.
pub struct TicksMut<'w> {
    /// The time of the last recorded change.
    pub changed: &'w mut u32,
    /// The present time.
    pub this_run: u32,
}

/// A mutable reference to a value, together with the record of its changes. Writing through it
/// records a change; narrowing it to a part of the value does not.
pub struct Mut<'w, T> {
    pub value: &'w mut T,
    pub ticks: TicksMut<'w>,
}

/// Calls `f` on `a`. A mutable reference goes along as it is and is not borrowed anew.
fn apply<A, R>(a: A, f: impl FnOnce(A) -> R) -> (r: R)
    requires
        call_requires(f, (a,)),
    ensures
        call_ensures(f, (a,), r),
{
    f(a)
}

impl<'w, T> Mut<'w, T> {
    /// The value as it is now.
    pub open spec fn now(&self) -> T {
        *self.value
    }

    /// The time of the last recorded change as it is now.
    pub open spec fn changed_now(&self) -> u32 {
        *self.ticks.changed
    }

    /// Gives access to `value`. Changes are recorded in `changed`, as made at the time `this_run`.
    pub fn new(value: &'w mut T, changed: &'w mut u32, this_run: u32) -> (access: Self)
        ensures
            access.now() == *old(value),
            *final(access.value) == *final(value),
            access.changed_now() == *old(changed),
            *final(access.ticks.changed) == *final(changed),
            access.ticks.this_run == this_run,
    {
        Mut { value, ticks: TicksMut { changed, this_run } }
    }

    /// Narrows the access to the part of the value that `f` picks out, without recording a change.
    pub fn map_unchanged<U>(self, f: impl FnOnce(&mut T) -> &mut U) -> (part: Mut<'w, U>)
        requires
            call_requires(f, (self.value,)),
        ensures
            call_ensures(f, (self.value,), part.value),
            part.ticks == self.ticks,
    {
        let Mut { value, ticks } = self;
        Mut { value: apply(value, f), ticks }
    }

    /// Narrows the access to the part of the value that `f` picks out, if it finds one, without
    /// recording a change.
    pub fn try_map_unchanged<U>(self, f: impl FnOnce(&mut T) -> Option<&mut U>) -> (part: Option<
        Mut<'w, U>,
    >)
        requires
            call_requires(f, (self.value,)),
        ensures
            match part {
                Some(part) => call_ensures(f, (self.value,), Some(part.value)) && part.ticks
                    == self.ticks,
                None => {
                    &&& call_ensures(f, (self.value,), None::<&mut U>)
                    &&& *final(self.ticks.changed) == self.changed_now()
                },
            },
    {
        let Mut { value, ticks } = self;
        let part = apply(value, f);
        if part.is_none() {
            None
        } else {
            Some(Mut { value: part.unwrap(), ticks })
        }
    }
}

impl<'w, T> Deref for Mut<'w, T> {
    type Target = T;

    /// The value, to be read.
    fn deref(&self) -> (value: &T)
        ensures
            *value == self.now(),
    {
        &*self.value
    }
}

impl<'w, T> DerefMut for Mut<'w, T> {
    /// The value, to be written. Records a change.
    fn deref_mut(&mut self) -> (value: &mut T)
        ensures
            *value == old(self).now(),
            final(self).now() == *final(value),
            *final(final(self).value) == *final(old(self).value),
            final(self).changed_now() == old(self).ticks.this_run,
            *final(final(self).ticks.changed) == *final(old(self).ticks.changed),
            final(self).ticks.this_run == old(self).ticks.this_run,
    {
        *self.ticks.changed = self.ticks.this_run;
        &mut *self.value
    }
}

} // verus!

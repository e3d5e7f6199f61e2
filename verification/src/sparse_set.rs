//! A map from small integer indices to values, kept in densely packed vectors.

use vstd::prelude::*;

verus! {

/// A map from indices to values.
///
/// The values lie side by side in `dense`, in the order in which their indices were first
/// inserted; `indices` holds the index of each of them, and `sparse` leads from an index to the
/// place of its value. Looking an index up therefore takes constant time, and room is taken for
/// every index up to the largest one in use.
pub struct SparseSet<V> {
    dense: Vec<V>,
    indices: Vec<usize>,
    sparse: Vec<Option<usize>>,
}

impl<V> View for SparseSet<V> {
    type V = Map<usize, V>;

    /// What the set holds: each index in use, with its value.
    closed spec fn view(&self) -> Map<usize, V> {
        Map::new(
            |index: usize| self.slot(index) is Some,
            |index: usize| self.dense@[self.slot(index)->0 as int],
        )
    }
}

impl<V> SparseSet<V> {
    /// The place of the value of `index` in `dense`, if `index` is in use.
    spec fn slot(&self, index: usize) -> Option<usize> {
        if index < self.sparse@.len() {
            self.sparse@[index as int]
        } else {
            None
        }
    }

    /// The three vectors agree: `sparse` and `indices` are inverse to each other, and every place
    /// in `dense` belongs to exactly one index.
    pub closed spec fn wf(&self) -> bool {
        &&& self.dense@.len() == self.indices@.len()
        &&& forall|index: usize| #[trigger]
            self.slot(index) is Some ==> self.slot(index)->0 < self.indices@.len()
                && self.indices@[self.slot(index)->0 as int] == index
        &&& forall|place: int|
            0 <= place < self.indices@.len() ==> self.slot(#[trigger] self.indices@[place]) is Some
                && self.slot(self.indices@[place])->0 == place
    }

    /// Creates an empty set.
    pub fn new() -> (set: Self)
        ensures
            set.wf(),
            set@ == Map::<usize, V>::empty(),
    {
        SparseSet { dense: Vec::new(), indices: Vec::new(), sparse: Vec::new() }
    }

    /// The number of indices in use.
    pub fn len(&self) -> (len: usize)
        requires
            self.wf(),
        ensures
            len == self@.len(),
            self@.dom().finite(),
    {
        proof {
            self.lemma_len();
        }
        self.dense.len()
    }

    /// Whether `index` is in use.
    pub fn contains(&self, index: usize) -> (found: bool)
        requires
            self.wf(),
        ensures
            found == self@.contains_key(index),
    {
        index < self.sparse.len() && self.sparse[index].is_some()
    }

    /// The value of `index`, or `None` if `index` is not in use.
    pub fn get(&self, index: usize) -> (value: Option<&V>)
        requires
            self.wf(),
        ensures
            match value {
                Some(value) => self@.contains_key(index) && *value == self@[index],
                None => !self@.contains_key(index),
            },
    {
        if index < self.sparse.len() {
            match self.sparse[index] {
                Some(place) => {
                    assert(self.slot(index) == Some(place));
                    Some(&self.dense[place])
                },
                None => None,
            }
        } else {
            None
        }
    }

    /// The value of `index`, to be read or written. If `index` is not in use yet, the value that
    /// `func` makes is put there first; otherwise `func` is not called.
    pub fn get_or_insert_with(&mut self, index: usize, func: impl FnOnce() -> V) -> (value: &mut V)
        requires
            old(self).wf(),
            index < usize::MAX,
            !old(self)@.contains_key(index) ==> call_requires(func, ()),
        ensures
            final(self).wf(),
            old(self)@.contains_key(index) ==> *value == old(self)@[index],
            !old(self)@.contains_key(index) ==> call_ensures(func, (), *value),
            final(self)@ == old(self)@.insert(index, *final(value)),
    {
        if !self.contains(index) {
            self.push(index, func());
        }
        assert(self@.contains_key(index));
        let place: usize = match self.sparse[index] {
            Some(place) => place,
            None => 0,
        };
        proof {
            assert(self@[index] == self.dense@[place as int]);
            self.lemma_update(index);
            assert(forall|v: V| #[trigger] self@.insert(index, v) == old(self)@.insert(index, v));
        }
        &mut self.dense[place]
    }

    /// Puts `value` at `index`, which is not in use yet.
    fn push(&mut self, index: usize, value: V)
        requires
            old(self).wf(),
            index < usize::MAX,
            !old(self)@.contains_key(index),
        ensures
            final(self).wf(),
            final(self)@ == old(self)@.insert(index, value),
    {
        let place: usize = self.dense.len();
        while self.sparse.len() <= index
            invariant
                index < usize::MAX,
                self.dense == old(self).dense,
                self.indices == old(self).indices,
                forall|i: usize| self.slot(i) == old(self).slot(i),
            decreases index + 1 - self.sparse.len(),
        {
            self.sparse.push(None);
        }
        assert(forall|p: int| 0 <= p < self.indices@.len() ==> self.indices@[p] != index);
        self.sparse[index] = Some(place);
        assert(forall|i: usize| i != index ==> self.slot(i) == old(self).slot(i));
        self.indices.push(index);
        self.dense.push(value);
        assert forall|i: usize| #[trigger] self.slot(i) is Some implies self.slot(i)->0
            < self.indices@.len() && self.indices@[self.slot(i)->0 as int] == i by {
            if i != index {
                assert(old(self).slot(i) is Some);
            }
        }
    }

    /// `after` is this set with perhaps another value at the place of `index`.
    spec fn same_but_at(&self, after: Self, index: usize) -> bool {
        let place = self.slot(index)->0 as int;
        &&& after.indices == self.indices
        &&& after.sparse == self.sparse
        &&& after.dense@ == self.dense@.update(place, after.dense@[place])
    }

    /// Writing another value to the place of an index in use changes what the set holds at that
    /// index, and nothing else.
    proof fn lemma_update(&self, index: usize)
        requires
            self.wf(),
            self.slot(index) is Some,
        ensures
            forall|after: Self|
                #![trigger after.wf()]
                #![trigger after.view()]
                self.same_but_at(after, index) ==> after.wf() && after@ == self@.insert(
                    index,
                    after.dense@[self.slot(index)->0 as int],
                ),
    {
        assert forall|after: Self|
            #![trigger after.wf()]
            #![trigger after.view()]
            self.same_but_at(after, index) implies after.wf() && after@ == self@.insert(
            index,
            after.dense@[self.slot(index)->0 as int],
        ) by {
            assert(forall|i: usize| after.slot(i) == self.slot(i));
        }
    }

    /// A set in order has as many indices in use as values.
    proof fn lemma_len(&self)
        requires
            self.wf(),
        ensures
            self@.dom().finite(),
            self@.len() == self.dense@.len(),
    {
        assert(self@.dom() =~= self.indices@.to_set());
        self.indices@.unique_seq_to_set();
    }
}

} // verus!

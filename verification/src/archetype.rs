//! Identifiers under which access to stored data is recorded.

use vstd::prelude::*;

verus! {

/// Identifies one stored resource for the purpose of recording who is accessing it.
///
/// The largest `usize` is not an identifier.
#[derive(Clone, Copy, Debug, PartialEq, Eq, Structural)]
pub struct ArchetypeComponentId {
    index: usize,
}

impl ArchetypeComponentId {
    #[verifier::type_invariant]
    spec fn in_range(self) -> bool {
        self.index < usize::MAX
    }

    /// The number behind the identifier.
    pub closed spec fn spec_index(&self) -> usize {
        self.index
    }

    /// The identifier with the given number.
    pub fn new(index: usize) -> (id: Self)
        requires
            index < usize::MAX,
        ensures
            id.index() == index,
    {
        ArchetypeComponentId { index }
    }

    /// The number behind the identifier.
    #[verifier::when_used_as_spec(spec_index)]
    pub fn index(&self) -> (index: usize)
        ensures
            index == self.index(),
            index < usize::MAX,
    {
        proof {
            use_type_invariant(self);
        }
        self.index
    }

    /// An identifier is told by its number.
    pub proof fn lemma_index_injective(a: Self, b: Self)
        requires
            a.index() == b.index(),
        ensures
            a == b,
    {
    }
}

} // verus!

//! Identifiers and the counter that issues them.
//!
//! Players and matches draw their identifiers from one sequence: the first
//! identifier issued is 1, and every later one is one more than the one before.

use vstd::prelude::*;

verus! {

/// A handle for a player or a match.
#[derive(Debug, Clone, Copy, PartialEq, Eq, Hash, Structural)]
pub struct Id(pub usize);

impl View for Id {
    type V = nat;

    open spec fn view(&self) -> nat {
        self.0 as nat
    }
}

/// The source of identifiers. It remembers how many it has issued; the
/// identifiers issued so far are exactly `1 ..= issued`.
#[derive(Debug)]
pub struct IdAllocator {
    issued: usize,
}

impl IdAllocator {
    /// How many identifiers have been issued so far.
    pub closed spec fn issued(&self) -> nat {
        self.issued as nat
    }

    /// Whether another identifier can be represented.
    pub open spec fn has_room(&self) -> bool {
        self.issued() < usize::MAX
    }

    /// An allocator that has issued nothing yet.
    pub fn new() -> (ids: Self)
        ensures
            ids.issued() == 0,
    {
        IdAllocator { issued: 0 }
    }

    /// Tells whether `next_id` may be called.
    pub fn can_allocate(&self) -> (ok: bool)
        ensures
            ok == self.has_room(),
    {
        self.issued < usize::MAX
    }

    /// Every allocator's count fits the machine word.
    pub proof fn lemma_issued_bounded(&self)
        ensures
            self.issued() <= usize::MAX,
    {
    }
}

/// Issues the next identifier: one more than the number issued before.
pub fn next_id(ids: &mut IdAllocator) -> (id: Id)
    requires
        old(ids).has_room(),
    ensures
        id@ == old(ids).issued() + 1,
        final(ids).issued() == old(ids).issued() + 1,
{
    ids.issued = ids.issued + 1;
    Id(ids.issued)
}

} // verus!

//! Process-unique identifiers for rendering contexts.

use vstd::prelude::*;

verus! {

/// A unique ID among all currently-allocated contexts.
///
/// If a context is destroyed, contexts allocated later might reuse its ID.
#[derive(Clone, Copy, Debug, PartialEq, Eq, Hash, Structural)]
pub struct ContextID(pub u64);

/// The mathematical state of a registry: the value the next allocation hands out.
pub ghost struct RegistryModel {
    pub next: nat,
}

/// Mints context identifiers from a generation counter.
///
/// The registry is a plain owned value; callers that allocate from several
/// threads share it behind a lock, so that each allocation is one step on it.
#[derive(Debug)]
pub struct ContextIdRegistry {
    next: u64,
}

/// `id` is what an allocation hands out when the registry goes from `before`
/// to `after`.
pub open spec fn allocates(before: RegistryModel, id: ContextID, after: RegistryModel) -> bool {
    &&& id.0 as nat == before.next
    &&& after.next == before.next + 1
}

impl View for ContextIdRegistry {
    type V = RegistryModel;

    closed spec fn view(&self) -> RegistryModel {
        RegistryModel { next: self.next as nat }
    }
}

impl ContextIdRegistry {
    /// A registry whose first allocation returns `ContextID(0)`.
    pub fn new() -> (r: ContextIdRegistry)
        ensures
            r@.next == 0,
    {
        ContextIdRegistry { next: 0 }
    }

    /// Whether another allocation fits in the 64-bit counter.
    pub open spec fn can_allocate(&self) -> bool {
        self@.next < u64::MAX
    }

    /// Whether another allocation fits in the 64-bit counter.
    pub fn has_capacity(&self) -> (r: bool)
        ensures
            r == self.can_allocate(),
    {
        self.next < u64::MAX
    }

    /// Hands out the next identifier and advances the counter.
    ///
    /// The result differs from every identifier this registry handed out
    /// before, and is greater than each of them.
    pub fn allocate(&mut self) -> (id: ContextID)
        requires
            old(self).can_allocate(),
        ensures
            allocates(old(self)@, id, final(self)@),
    {
        let id = ContextID(self.next);
        self.next = self.next + 1;
        id
    }
}

/// Identifiers handed out by a run of allocations, one after another on one
/// registry, are pairwise distinct and increasing.
///
/// `states[i]` is the registry before the `i`-th allocation and `states[i + 1]`
/// the registry after it. Allocations from several threads, serialized by a
/// lock, form such a run in the order in which they took the lock.
pub proof fn lemma_allocations_distinct(states: Seq<RegistryModel>, ids: Seq<ContextID>)
    requires
        states.len() == ids.len() + 1,
        forall|i: int| #![trigger ids[i]] 0 <= i < ids.len() ==> allocates(states[i], ids[i], states[i + 1]),
    ensures
        forall|i: int, j: int| 0 <= i < j < ids.len() ==> ids[i].0 < ids[j].0,
        forall|i: int, j: int| 0 <= i < ids.len() && 0 <= j < ids.len() && i != j ==> ids[i] != ids[j],
{
    assert forall|i: int| 0 <= i < ids.len() implies ids[i].0 as int == states[0].next + i by {
        lemma_run_offset(states, ids, i);
    }
}

/// In a run of allocations, the `i`-th one hands out the first counter value plus `i`.
proof fn lemma_run_offset(states: Seq<RegistryModel>, ids: Seq<ContextID>, i: int)
    requires
        states.len() == ids.len() + 1,
        forall|k: int| #![trigger ids[k]] 0 <= k < ids.len() ==> allocates(states[k], ids[k], states[k + 1]),
        0 <= i < ids.len(),
    ensures
        ids[i].0 as int == states[0].next + i,
        states[i].next == states[0].next + i,
    decreases i,
{
    if i > 0 {
        lemma_run_offset(states, ids, i - 1);
        assert(allocates(states[i - 1], ids[i - 1], states[i]));
    }
}

} // verus!

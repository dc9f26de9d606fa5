//! Allocation of request identifiers.
//!
//! Every in-flight call is keyed by a `u64` identifier. The generator hands
//! out `1, 2, 3, ...` in order, so identifiers are never reused within a
//! process and later calls always carry larger identifiers than earlier ones.

use vstd::prelude::*;

verus! {

/// Produces a strictly increasing sequence of request identifiers,
/// starting at 1.
pub struct IdGen {
    next: u64,
    issued: Ghost<Seq<u64>>,
}

impl IdGen {
    /// Every identifier handed out so far, oldest first.
    pub closed spec fn issued(self) -> Seq<u64> {
        self.issued@
    }

    /// The identifier the next call will receive.
    pub closed spec fn next_id(self) -> u64 {
        self.next
    }

    pub open spec fn wf(self) -> bool {
        &&& 1 <= self.next_id()
        &&& forall|i: int|
            0 <= i < self.issued().len() ==> #[trigger] self.issued()[i] < self.next_id()
        &&& forall|i: int, j: int|
            0 <= i < j < self.issued().len() ==> #[trigger] self.issued()[i]
                < #[trigger] self.issued()[j]
    }

    pub fn new() -> (g: IdGen)
        ensures
            g.wf(),
            g.issued() == Seq::<u64>::empty(),
            g.next_id() == 1,
    {
        IdGen { next: 1, issued: Ghost(Seq::empty()) }
    }

    /// The identifier the next call will receive.
    pub fn peek_next(&self) -> (n: u64)
        ensures
            n == self.next_id(),
    {
        self.next
    }

    /// Allocates the next identifier: it exceeds every identifier handed out
    /// before it, and no identifier is ever handed out twice.
    pub fn fresh(&mut self) -> (id: u64)
        requires
            old(self).wf(),
            old(self).next_id() < u64::MAX,
        ensures
            final(self).wf(),
            id == old(self).next_id(),
            final(self).next_id() == id + 1,
            final(self).issued() == old(self).issued().push(id),
            forall|i: int|
                0 <= i < old(self).issued().len() ==> #[trigger] old(self).issued()[i] < id,
    {
        let id = self.next;
        self.next = self.next + 1;
        proof {
            self.issued@ = self.issued@.push(id);
        }
        id
    }
}

/// Law: the identifiers allocated across any number of calls are strictly
/// increasing in allocation order, and therefore pairwise distinct.
pub proof fn lemma_ids_distinct_and_increasing(g: IdGen)
    requires
        g.wf(),
    ensures
        forall|i: int, j: int| 0 <= i < j < g.issued().len() ==> g.issued()[i] < g.issued()[j],
        forall|i: int, j: int|
            0 <= i < g.issued().len() && 0 <= j < g.issued().len() && i != j ==> g.issued()[i]
                != g.issued()[j],
{
    assert forall|i: int, j: int|
        0 <= i < g.issued().len() && 0 <= j < g.issued().len() && i != j implies g.issued()[i]
        != g.issued()[j] by {
        if i < j {
            assert(g.issued()[i] < g.issued()[j]);
        } else {
            assert(g.issued()[j] < g.issued()[i]);
        }
    }
}

} // verus!

//! The worker identifier allocator.
//!
//! Every accepted connection is tagged with an identifier used only for
//! diagnostics. Identifiers are never reused and grow strictly in allocation
//! order; the allocator keeps a ghost record of everything it has handed out
//! so that callers can reason about the whole history.

use vstd::prelude::*;

verus! {

/// A monotonically increasing counter that labels each accepted connection.
///
/// The process wraps one allocator in its own mutual-exclusion primitive and
/// shares it between all accept-time call sites; each call hands out a value
/// no earlier call has returned.
pub struct WorkerIdAllocator {
    next: usize,
    issued: Ghost<Seq<usize>>,
}

impl WorkerIdAllocator {
    /// The identifiers handed out so far, oldest first.
    pub closed spec fn issued(&self) -> Seq<usize> {
        self.issued@
    }

    /// The value the next allocation will return.
    pub closed spec fn next_value(&self) -> usize {
        self.next
    }

    /// Every identifier handed out so far is below the counter, and the
    /// history is strictly increasing.
    pub open spec fn wf(&self) -> bool {
        &&& forall|i: int, j: int|
            0 <= i < j < self.issued().len() ==> self.issued()[i] < self.issued()[j]
        &&& forall|i: int| 0 <= i < self.issued().len() ==> self.issued()[i] < self.next_value()
    }

    /// A fresh allocator: nothing issued, counting from zero.
    pub fn new() -> (a: Self)
        ensures
            a.wf(),
            a.issued() == Seq::<usize>::empty(),
            a.next_value() == 0,
    {
        WorkerIdAllocator { next: 0, issued: Ghost(Seq::empty()) }
    }

    /// Whether another identifier can still be handed out: the counter is
    /// not exhausted. Callers test this before `next_worker_id`.
    pub fn can_allocate(&self) -> (r: bool)
        ensures
            r == (self.next_value() < usize::MAX),
    {
        self.next < usize::MAX
    }

    /// Hands out the next identifier: strictly greater than every identifier
    /// this allocator has returned before, and never to be returned again.
    pub fn next_worker_id(&mut self) -> (id: usize)
        requires
            old(self).wf(),
            old(self).next_value() < usize::MAX,
        ensures
            final(self).wf(),
            id == old(self).next_value(),
            final(self).next_value() == id + 1,
            final(self).issued() == old(self).issued().push(id),
            forall|i: int| 0 <= i < old(self).issued().len() ==> old(self).issued()[i] < id,
    {
        let id = self.next;
        self.next = self.next + 1;
        self.issued = Ghost(self.issued@.push(id));
        id
    }
}

/// Identifiers issued by one allocator are pairwise distinct and strictly
/// increasing in allocation order, however many call sites draw from it.
pub proof fn lemma_issued_ids_distinct(a: &WorkerIdAllocator)
    requires
        a.wf(),
    ensures
        forall|i: int, j: int|
            0 <= i < j < a.issued().len() ==> a.issued()[i] < a.issued()[j],
        forall|i: int, j: int|
            0 <= i < j < a.issued().len() ==> a.issued()[i] != a.issued()[j],
{
}

} // verus!

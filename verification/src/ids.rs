//! The identifier source for footnotes: issues fresh unsigned integers and
//! never reissues one. The counter state is explicit here and proved
//! monotonic; making one instance process-wide (a `static` behind a lock or
//! an atomic) is left to the unverified shell around this crate.

use vstd::prelude::*;

verus! {

/// A monotonic issuer of footnote identifiers. Identifiers start at 1 and
/// are only ever advanced, never reset or rolled back.
pub struct FootnoteIdGenerator {
    next: usize,
    issued: Ghost<Set<usize>>,
}

impl FootnoteIdGenerator {
    /// The identifier the next call will issue.
    pub closed spec fn next_id(&self) -> usize {
        self.next
    }

    /// Every identifier this generator has issued so far.
    pub closed spec fn issued_ids(&self) -> Set<usize> {
        self.issued@
    }

    /// Everything issued lies below the counter, so nothing can be issued
    /// twice.
    pub open spec fn wf(&self) -> bool {
        forall|i: usize| self.issued_ids().contains(i) ==> i < self.next_id()
    }

    /// The identifier the next call will issue, as a value.
    pub fn peek_next(&self) -> (id: usize)
        ensures
            id == self.next_id(),
    {
        self.next
    }

    /// A fresh generator: nothing issued, the first identifier is 1.
    pub fn new() -> (g: FootnoteIdGenerator)
        ensures
            g.wf(),
            g.next_id() == 1,
            g.issued_ids() == Set::<usize>::empty(),
    {
        FootnoteIdGenerator { next: 1, issued: Ghost(Set::empty()) }
    }

    /// Issues the next identifier: it was never issued before, and the
    /// issued set only grows.
    pub fn issue(&mut self) -> (id: usize)
        requires
            old(self).wf(),
            old(self).next_id() < usize::MAX,
        ensures
            final(self).wf(),
            id == old(self).next_id(),
            !old(self).issued_ids().contains(id),
            final(self).issued_ids() == old(self).issued_ids().insert(id),
            final(self).next_id() == old(self).next_id() + 1,
    {
        let id = self.next;
        self.next = self.next + 1;
        proof {
            self.issued@ = self.issued@.insert(id);
            assert forall|i: usize| self.issued@.contains(i) implies i < self.next by {
                if i != id {
                    assert(old(self).issued_ids().contains(i));
                }
            }
        }
        id
    }
}

/// One step of the issuer, as a relation on its states: `id` comes out and
/// the state advances.
pub open spec fn issue_step(
    before: FootnoteIdGenerator,
    after: FootnoteIdGenerator,
    id: usize,
) -> bool {
    &&& id == before.next_id()
    &&& after.next_id() == before.next_id() + 1
    &&& after.issued_ids() == before.issued_ids().insert(id)
}

/// Identifiers issued in immediate succession are never equal: within one
/// generator's lifetime no value comes out twice.
pub proof fn lemma_successive_ids_differ(
    g0: FootnoteIdGenerator,
    g1: FootnoteIdGenerator,
    g2: FootnoteIdGenerator,
    id1: usize,
    id2: usize,
)
    requires
        issue_step(g0, g1, id1),
        issue_step(g1, g2, id2),
    ensures
        id1 != id2,
{
}

} // verus!

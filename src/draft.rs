//! A configuration domain held as a durable snapshot plus a working draft.
//!
//! Every mutation goes to the draft; `apply` commits the draft into the
//! snapshot and `discard` rolls the draft back to the snapshot.
use vstd::prelude::*;

verus! {

/// A value that can produce a copy of itself with the same view.
pub trait Snapshot: View + Sized {
    fn snapshot(&self) -> (r: Self)
        ensures
            r@ == self@,
    ;
}

/// The draft/commit/rollback store for one configuration domain.
pub struct Draft<T> {
    persisted: T,
    working: T,
}

impl<T: Snapshot> Draft<T> {
    /// The last committed value.
    pub closed spec fn saved(&self) -> T::V {
        self.persisted@
    }

    /// The working value that mutations touch.
    pub closed spec fn draft(&self) -> T::V {
        self.working@
    }

    /// `self` is what `apply` makes of `prev`.
    pub open spec fn applied_from(&self, prev: &Self) -> bool {
        &&& self.saved() == prev.draft()
        &&& self.draft() == prev.draft()
    }

    /// `self` is what `discard` makes of `prev`.
    pub open spec fn discarded_from(&self, prev: &Self) -> bool {
        &&& self.saved() == prev.saved()
        &&& self.draft() == prev.saved()
    }

    /// `self` is `prev` after a mutation of the working value alone.
    pub open spec fn mutated_from(&self, prev: &Self) -> bool {
        self.saved() == prev.saved()
    }

    /// Loads a domain: both the snapshot and the draft start as `value`.
    pub fn new(value: T) -> (r: Self)
        ensures
            r.saved() == value@,
            r.draft() == value@,
    {
        let working = value.snapshot();
        Draft { persisted: value, working }
    }

    /// The working value, for callers to mutate in place.
    pub fn latest(&mut self) -> (r: &mut T)
        ensures
            r@ == old(self).draft(),
            final(self).draft() == final(r)@,
            final(self).saved() == old(self).saved(),
    {
        &mut self.working
    }

    /// The working value, read only.
    pub fn data(&self) -> (r: &T)
        ensures
            r@ == self.draft(),
    {
        &self.working
    }

    /// The last committed value, read only: what a durable save writes.
    pub fn committed(&self) -> (r: &T)
        ensures
            r@ == self.saved(),
    {
        &self.persisted
    }

    /// Commits the working value into the snapshot.
    pub fn apply(&mut self)
        ensures
            final(self).applied_from(old(self)),
    {
        self.persisted = self.working.snapshot();
    }

    /// Rolls the working value back to the snapshot.
    pub fn discard(&mut self)
        ensures
            final(self).discarded_from(old(self)),
    {
        self.working = self.persisted.snapshot();
    }
}

/// Right after `apply`, the working value is the committed one and a
/// `discard` changes nothing.
pub proof fn lemma_discard_after_apply_is_noop<T: Snapshot>(
    before: Draft<T>,
    applied: Draft<T>,
    discarded: Draft<T>,
)
    requires
        applied.applied_from(&before),
        discarded.discarded_from(&applied),
    ensures
        applied.draft() == applied.saved(),
        discarded.saved() == applied.saved(),
        discarded.draft() == applied.draft(),
{
}

/// Committing twice in a row leaves the domain as the first commit left it.
pub proof fn lemma_apply_is_idempotent<T: Snapshot>(
    before: Draft<T>,
    once: Draft<T>,
    twice: Draft<T>,
)
    requires
        once.applied_from(&before),
        twice.applied_from(&once),
    ensures
        twice.saved() == once.saved(),
        twice.draft() == once.draft(),
{
}

/// After any run of mutations with no `apply` in between, `discard` brings
/// the working value back to the snapshot taken before the first mutation.
pub proof fn lemma_discard_restores_snapshot<T: Snapshot>(
    steps: Seq<Draft<T>>,
    discarded: Draft<T>,
)
    requires
        steps.len() > 0,
        forall|i: int| 0 <= i < steps.len() - 1 ==> #[trigger] steps[i + 1].mutated_from(&steps[i]),
        discarded.discarded_from(&steps.last()),
    ensures
        discarded.draft() == steps[0].saved(),
        discarded.saved() == steps[0].saved(),
    decreases steps.len(),
{
    if steps.len() > 1 {
        let shorter = steps.drop_last();
        let k = steps.len() - 2;
        assert(steps[k + 1].mutated_from(&steps[k]));
        assert forall|i: int| 0 <= i < shorter.len() - 1 implies #[trigger] shorter[i
            + 1].mutated_from(&shorter[i]) by {
            assert(steps[i + 1].mutated_from(&steps[i]));
        }
        let rolled_back = Draft { persisted: steps[k].persisted, working: steps[k].persisted };
        lemma_discard_restores_snapshot(shorter, rolled_back);
        assert(steps[k].saved() == steps[0].saved());
    }
}

} // verus!

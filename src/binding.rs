//! A ring of per-draw binding sets reused from frame to frame.
//!
//! Each draw takes the next binding set of the frame. Sets are recycled once
//! the frames that used them are known to be complete, so the ring grows only
//! to the largest number of draws a single frame has needed.
use vstd::prelude::*;
use crate::ident::IdSource;

verus! {

pub struct TransientBindingPool {
    sets: Vec<u64>,
    in_use: usize,
}

impl TransientBindingPool {
    /// The binding sets the ring holds, by identity token.
    pub closed spec fn sets(&self) -> Seq<u64> {
        self.sets@
    }

    /// How many of them this frame has handed out.
    pub closed spec fn in_use(&self) -> nat {
        self.in_use as nat
    }

    /// Sets are handed out in ring order, and their tokens are increasing,
    /// so no two of them are the same set.
    pub closed spec fn wf(&self) -> bool {
        &&& self.in_use <= self.sets@.len()
        &&& forall|i: int, j: int| 0 <= i < j < self.sets@.len() ==> self.sets@[i] < self.sets@[j]
    }

    /// Every token of the ring was drawn from a source now at `next`.
    pub open spec fn issued_below(&self, next: nat) -> bool {
        forall|i: int| 0 <= i < self.sets().len() ==> self.sets()[i] < next
    }

    pub fn new() -> (r: TransientBindingPool)
        ensures
            r.wf(),
            r.sets().len() == 0,
            r.in_use() == 0,
    {
        TransientBindingPool { sets: Vec::new(), in_use: 0 }
    }

    /// The binding set for the next draw of this frame: the next recycled set
    /// when one is free, else a new one added to the ring.
    pub fn next(&mut self, ids: &mut IdSource) -> (r: u64)
        requires
            old(self).wf(),
            old(self).issued_below(old(ids).next_token()),
            old(self).in_use() < old(self).sets().len() || old(ids).can_issue(),
            old(self).in_use() < usize::MAX,
        ensures
            final(self).wf(),
            final(self).issued_below(final(ids).next_token()),
            final(self).in_use() == old(self).in_use() + 1,
            old(self).in_use() < old(self).sets().len() ==> r == old(self).sets()[old(self).in_use() as int]
                && final(self).sets() == old(self).sets() && final(ids).next_token() == old(
                ids,
            ).next_token(),
            old(self).in_use() == old(self).sets().len() ==> r == old(ids).next_token()
                && final(self).sets() == old(self).sets().push(r) && final(ids).next_token()
                == old(ids).next_token() + 1,
            final(self).sets().len() == if final(self).in_use() > old(self).sets().len() {
                final(self).in_use()
            } else {
                old(self).sets().len()
            },
    {
        let r = if self.in_use < self.sets.len() {
            self.sets[self.in_use]
        } else {
            let t = ids.fresh();
            self.sets.push(t);
            t
        };
        self.in_use = self.in_use + 1;
        r
    }

    /// Called once the frames that used the ring's sets are complete: every
    /// set is free again.
    pub fn recycle(&mut self)
        requires
            old(self).wf(),
        ensures
            final(self).wf(),
            final(self).sets() == old(self).sets(),
            final(self).in_use() == 0,
    {
        self.in_use = 0;
    }
}

} // verus!

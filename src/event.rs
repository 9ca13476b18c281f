//! A registry of event listeners keyed by the id each was given.
use vstd::prelude::*;

verus! {

pub struct Notifier<L> {
    listeners: Vec<(usize, L)>,
    next_id: usize,
}

impl<L> Notifier<L> {
    /// The registered listeners with their ids, in registration order.
    pub closed spec fn entries(&self) -> Seq<(usize, L)> {
        self.listeners@
    }

    /// The id registration starts searching from.
    pub closed spec fn next_id(&self) -> nat {
        self.next_id as nat
    }

    pub open spec fn has(&self, id: usize) -> bool {
        exists|i: int| 0 <= i < self.entries().len() && (#[trigger] self.entries()[i]).0 == id
    }

    /// Ids are unique, and none is beyond the search start.
    pub closed spec fn wf(&self) -> bool {
        &&& forall|i: int, j: int|
            0 <= i < j < self.listeners@.len() ==> self.listeners@[i].0 != self.listeners@[j].0
        &&& forall|i: int| 0 <= i < self.listeners@.len() ==> self.listeners@[i].0 <= self.next_id
    }

    /// Whether one more listener can be given an id.
    pub open spec fn can_register(&self) -> bool {
        self.next_id() < usize::MAX || !self.has(usize::MAX as usize)
    }

    pub fn new() -> (r: Notifier<L>)
        ensures
            r.wf(),
            r.entries().len() == 0,
            r.next_id() == 0,
    {
        Notifier { listeners: Vec::new(), next_id: 0 }
    }

    fn contains(&self, id: usize) -> (r: bool)
        ensures
            r == self.has(id),
    {
        let mut i: usize = 0;
        while i < self.listeners.len()
            invariant
                i <= self.listeners@.len(),
                forall|k: int| 0 <= k < i ==> (#[trigger] self.listeners@[k]).0 != id,
            decreases self.listeners@.len() - i,
        {
            if self.listeners[i].0 == id {
                assert(self.entries()[i as int].0 == id);
                return true;
            }
            i = i + 1;
        }
        assert forall|k: int| 0 <= k < self.entries().len() implies (#[trigger] self.entries()[k]).0
            != id by {
            assert(self.listeners@[k].0 != id);
        }
        false
    }

    /// Registers `listener` under the first free id from the search start on,
    /// and returns that id.
    pub fn register(&mut self, listener: L) -> (r: usize)
        requires
            old(self).wf(),
            old(self).can_register(),
        ensures
            final(self).wf(),
            !old(self).has(r),
            r >= old(self).next_id(),
            forall|k: usize| old(self).next_id() <= k < r ==> old(self).has(k),
            final(self).entries() == old(self).entries().push((r, listener)),
            final(self).next_id() == r,
    {
        let start = self.next_id;
        let mut taken = self.contains(self.next_id);
        while taken
            invariant
                self.wf(),
                self.listeners@ == old(self).listeners@,
                self.entries() == old(self).entries(),
                start == old(self).next_id,
                start <= self.next_id,
                taken == self.has(self.next_id),
                self.next_id == start || forall|i: int|
                    0 <= i < self.listeners@.len() ==> self.listeners@[i].0 < self.next_id,
                forall|k: usize| start <= k < self.next_id ==> old(self).has(k),
                old(self).can_register(),
            decreases usize::MAX - self.next_id,
        {
            proof {
                let w = choose|i: int|
                    0 <= i < self.entries().len() && (#[trigger] self.entries()[i]).0 == self.next_id;
                assert(self.listeners@[w].0 == self.next_id);
            }
            self.next_id = self.next_id + 1;
            taken = self.contains(self.next_id);
        }
        let id = self.next_id;
        assert(!old(self).has(id));
        assert forall|i: int| 0 <= i < self.listeners@.len() implies self.listeners@[i].0 != id by {
            assert(self.entries()[i].0 == self.listeners@[i].0);
        }
        self.listeners.push((id, listener));
        assert(self.listeners@[self.listeners@.len() - 1].0 == id);
        id
    }

    /// Removes and returns the listener registered under `key`.
    pub fn unregister(&mut self, key: &usize) -> (r: Option<L>)
        requires
            old(self).wf(),
        ensures
            final(self).wf(),
            final(self).next_id() == old(self).next_id(),
            r is Some <==> old(self).has(*key),
            r is Some ==> exists|i: int|
                0 <= i < old(self).entries().len() && old(self).entries()[i].0 == *key
                    && r == Some(old(self).entries()[i].1) && final(self).entries() == old(
                    self,
                ).entries().remove(i),
            r is None ==> final(self).entries() == old(self).entries(),
    {
        let mut i: usize = 0;
        while i < self.listeners.len()
            invariant
                i <= self.listeners@.len(),
                self.listeners@ == old(self).listeners@,
                self.next_id == old(self).next_id,
                self.wf(),
                forall|k: int| 0 <= k < i ==> (#[trigger] self.listeners@[k]).0 != *key,
            decreases self.listeners@.len() - i,
        {
            if self.listeners[i].0 == *key {
                assert(old(self).entries()[i as int].0 == *key);
                let (_, listener) = self.listeners.remove(i);
                assert(self.listeners@ =~= old(self).listeners@.remove(i as int));
                return Some(listener);
            }
            i = i + 1;
        }
        assert forall|k: int| 0 <= k < old(self).entries().len() implies (#[trigger] old(
            self,
        ).entries()[k]).0 != *key by {
            assert(self.listeners@[k].0 != *key);
        }
        None
    }

    /// The ids of the registered listeners, in registration order.
    pub fn ids(&self) -> (r: Vec<usize>)
        ensures
            r@.len() == self.entries().len(),
            forall|i: int| 0 <= i < r@.len() ==> r@[i] == self.entries()[i].0,
    {
        let mut r: Vec<usize> = Vec::new();
        let mut i: usize = 0;
        while i < self.listeners.len()
            invariant
                i <= self.listeners@.len(),
                r@.len() == i,
                forall|k: int| 0 <= k < i ==> r@[k] == self.listeners@[k].0,
            decreases self.listeners@.len() - i,
        {
            r.push(self.listeners[i].0);
            i = i + 1;
        }
        r
    }

    /// Calls every listener once with `event`, in registration order. The
    /// listeners stay registered under the same ids.
    pub fn notify<T>(&mut self, event: &T)
        where
            L: FnMut(&T),
        requires
            old(self).wf(),
            forall|i: int|
                0 <= i < old(self).entries().len() ==> (#[trigger] old(self).entries()[i]).1.requires(
                    (event,),
                ),
        ensures
            final(self).wf(),
            final(self).next_id() == old(self).next_id(),
            final(self).entries().len() == old(self).entries().len(),
            forall|i: int|
                0 <= i < final(self).entries().len() ==> (#[trigger] final(self).entries()[i]).0 == old(
                    self,
                ).entries()[i].0,
    {
        let mut i: usize = 0;
        while i < self.listeners.len()
            invariant
                i <= self.listeners@.len(),
                self.listeners@.len() == old(self).listeners@.len(),
                self.next_id == old(self).next_id,
                forall|k: int|
                    0 <= k < self.listeners@.len() ==> (#[trigger] self.listeners@[k]).0
                        == old(self).listeners@[k].0,
                forall|k: int|
                    i <= k < self.listeners@.len() ==> (#[trigger] self.listeners@[k]).1
                        == old(self).listeners@[k].1,
                forall|k: int|
                    0 <= k < old(self).entries().len() ==> (#[trigger] old(self).entries()[k]).1.requires(
                        (event,),
                    ),
                old(self).wf(),
            decreases self.listeners@.len() - i,
        {
            let (id, mut listener) = self.listeners.remove(i);
            assert(old(self).entries()[i as int].1 == listener);
            listener(event);
            self.listeners.insert(i, (id, listener));
            i = i + 1;
        }
    }
}

} // verus!

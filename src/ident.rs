//! Identity tokens.
//!
//! GPU objects (images, framebuffers, binding sets) are compared by identity,
//! never by contents. An identity is a `u64` token handed out once by an
//! [`IdSource`]; two objects are the same object exactly when their tokens are
//! equal.
use vstd::prelude::*;

verus! {

/// Hands out identity tokens, each at most once.
pub struct IdSource {
    next: u64,
}

impl IdSource {
    /// The next token this source will hand out; every token handed out so far
    /// is smaller.
    pub closed spec fn next_token(&self) -> nat {
        self.next as nat
    }

    /// Whether another token can be handed out.
    pub open spec fn can_issue(&self) -> bool {
        self.next_token() < u64::MAX
    }

    pub fn new() -> (r: IdSource)
        ensures
            r.next_token() == 0,
    {
        IdSource { next: 0 }
    }

    /// A token that no earlier call on this source returned.
    pub fn fresh(&mut self) -> (r: u64)
        requires
            old(self).can_issue(),
        ensures
            r as nat == old(self).next_token(),
            final(self).next_token() == old(self).next_token() + 1,
    {
        let r = self.next;
        self.next = self.next + 1;
        r
    }
}

/// The owner side of an identity: a render target holds one, and the batches
/// built for it hold [`ObjectId`]s made from it.
pub struct ObjectIdRoot {
    val: u64,
}

/// A non-owning reference to an [`ObjectIdRoot`], used to check that a batch is
/// used with the target it was built for.
pub struct ObjectId {
    val: u64,
}

impl ObjectIdRoot {
    pub closed spec fn token(&self) -> u64 {
        self.val
    }

    /// A root with a fresh identity.
    pub fn new(ids: &mut IdSource) -> (r: ObjectIdRoot)
        requires
            old(ids).can_issue(),
        ensures
            r.token() as nat == old(ids).next_token(),
            final(ids).next_token() == old(ids).next_token() + 1,
    {
        ObjectIdRoot { val: ids.fresh() }
    }

    pub fn make_id(&self) -> (r: ObjectId)
        ensures
            r.token() == self.token(),
    {
        ObjectId { val: self.val }
    }
}

impl ObjectId {
    pub closed spec fn token(&self) -> u64 {
        self.val
    }

    /// Whether this id was made from `root`.
    pub fn is_child_of(&self, root: &ObjectIdRoot) -> (r: bool)
        ensures
            r == (self.token() == root.token()),
    {
        self.val == root.val
    }
}

} // verus!

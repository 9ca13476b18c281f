//! Per-slot framebuffer cache, invalidated by image identity.
//!
//! Each slot (one per swapchain or target image index) remembers the identity
//! token of the image its framebuffer was built against. The token is a
//! lookup token, never an owner: tokens are never reissued, so an entry whose
//! token equals the target's current, live image was built against that very
//! image. Equal dimensions are no evidence of that, so they play no part.
use vstd::prelude::*;

verus! {

#[derive(Clone, Copy, Debug, PartialEq, Eq, Structural)]
pub struct CachedFramebuffer {
    /// Identity of the image the framebuffer was built against.
    pub image: u64,
    /// Identity of the framebuffer, owned by the cache alone.
    pub framebuffer: u64,
}

/// The framebuffer an entry offers for `image`: only one built against that
/// same image.
pub open spec fn cached_for(entry: Option<CachedFramebuffer>, image: u64) -> Option<u64> {
    match entry {
        Some(c) => if c.image == image { Some(c.framebuffer) } else { None },
        None => None,
    }
}

pub struct FramebufferCache {
    slots: Vec<Option<CachedFramebuffer>>,
}

impl View for FramebufferCache {
    type V = Seq<Option<CachedFramebuffer>>;

    closed spec fn view(&self) -> Seq<Option<CachedFramebuffer>> {
        self.slots@
    }
}

impl FramebufferCache {
    /// A cache with `slot_count` empty slots.
    pub fn new(slot_count: usize) -> (r: FramebufferCache)
        ensures
            r@ == Seq::new(slot_count as nat, |_i: int| None::<CachedFramebuffer>),
    {
        let mut slots: Vec<Option<CachedFramebuffer>> = Vec::with_capacity(slot_count);
        let mut i: usize = 0;
        while i < slot_count
            invariant
                i <= slot_count,
                slots@ =~= Seq::new(i as nat, |_i: int| None::<CachedFramebuffer>),
            decreases slot_count - i,
        {
            slots.push(None);
            i = i + 1;
        }
        FramebufferCache { slots }
    }

    pub fn slot_count(&self) -> (r: usize)
        ensures
            r == self@.len(),
    {
        self.slots.len()
    }

    /// The cached framebuffer for `image` at `slot`, if it was built against
    /// that image.
    pub fn lookup(&self, slot: usize, image: u64) -> (r: Option<u64>)
        requires
            slot < self@.len(),
        ensures
            r == cached_for(self@[slot as int], image),
    {
        match self.slots[slot] {
            Some(c) => if c.image == image { Some(c.framebuffer) } else { None },
            None => None,
        }
    }

    /// The framebuffer for `image` at `slot`: the cached one when it was built
    /// against that same image, with no call to `build`; otherwise whatever
    /// `build` makes for the image, which replaces the slot's entry. A build
    /// error is handed back and leaves the cache as it was.
    pub fn get_or_build<F, E>(&mut self, slot: usize, image: u64, build: F) -> (r: Result<u64, E>)
        where
            F: FnOnce(u64) -> Result<u64, E>,
        requires
            slot < old(self)@.len(),
            build.requires((image,)),
        ensures
            cached_for(old(self)@[slot as int], image) is Some ==> r == Ok::<u64, E>(
                cached_for(old(self)@[slot as int], image)->Some_0,
            ) && final(self)@ == old(self)@,
            cached_for(old(self)@[slot as int], image) is None ==> build.ensures((image,), r),
            cached_for(old(self)@[slot as int], image) is None && r is Ok ==> final(self)@
                == old(self)@.update(
                slot as int,
                Some(CachedFramebuffer { image, framebuffer: r->Ok_0 }),
            ),
            r is Err ==> final(self)@ == old(self)@,
    {
        match self.lookup(slot, image) {
            Some(fb) => Ok(fb),
            None => {
                let r = build(image);
                match r {
                    Ok(fb) => {
                        self.slots.set(slot, Some(CachedFramebuffer { image, framebuffer: fb }));
                        Ok(fb)
                    },
                    Err(e) => Err(e),
                }
            },
        }
    }
}

/// An entry built against one image is never offered for another, even one of
/// the same size, and is offered again for its own image.
pub proof fn lemma_entry_matches_identity_only(entry: CachedFramebuffer, other: u64)
    requires
        other != entry.image,
    ensures
        cached_for(Some(entry), other) is None,
        cached_for(Some(entry), entry.image) == Some(entry.framebuffer),
{
}

} // verus!

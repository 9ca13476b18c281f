//! Deferred-shading attachments with ping-pong temporal history.
//!
//! A set holds ten resources, each named by an identity token drawn in this
//! order when the set is built: the color, normal and depth attachments, the
//! two history attachments, the two "read history, write new" binding sets
//! (the one at index `i` samples history `1 - i`), the two composite binding
//! sets (the one at index `i` reads history `i`), and the binding set that
//! samples the placeholder image in place of history. The set is rebuilt as a
//! whole, never in part, whenever the target's dimensions change.
use vstd::prelude::*;
use crate::ident::IdSource;

verus! {

/// How many resources a set holds.
pub const RESOURCE_COUNT: u64 = 10;

/// The abstract state of a set: resource `i` has token `first + i`.
pub struct GBufferModel {
    pub width: u32,
    pub height: u32,
    pub first: nat,
    pub placeholder: u64,
    pub index: bool,
    pub initialized: bool,
}

/// Token of resource `i` of a set.
pub open spec fn resource(m: GBufferModel, i: int) -> int {
    m.first + i
}

/// What one frame binds.
#[derive(Clone, Copy, Debug, PartialEq, Eq, Structural)]
pub struct FrameBindings {
    /// The history attachment written this frame.
    pub written: u64,
    /// The image sampled as the previous frame's history.
    pub read: u64,
    /// The binding set that samples `read`.
    pub read_binding: u64,
    /// The binding set the composite pass reads `written` through.
    pub composite_binding: u64,
}

/// The bindings of a frame at the set's current history index.
pub open spec fn bindings_of(m: GBufferModel) -> FrameBindings {
    let i = if m.index { 1int } else { 0int };
    FrameBindings {
        written: resource(m, 3 + i) as u64,
        read: if m.initialized { resource(m, 4 - i) as u64 } else { m.placeholder },
        read_binding: if m.initialized { resource(m, 5 + i) as u64 } else { resource(m, 9) as u64 },
        composite_binding: resource(m, 7 + i) as u64,
    }
}

/// A set freshly built at the given size from tokens `first..first + 10`.
pub open spec fn fresh_model(width: u32, height: u32, placeholder: u64, first: nat) -> GBufferModel {
    GBufferModel { width, height, first, placeholder, index: false, initialized: false }
}

pub open spec fn toggled(m: GBufferModel) -> GBufferModel {
    GBufferModel { index: !m.index, ..m }
}

pub open spec fn ended(m: GBufferModel) -> GBufferModel {
    GBufferModel { initialized: true, ..m }
}

pub struct GBufferSet {
    width: u32,
    height: u32,
    color: u64,
    normal: u64,
    depth: u64,
    history: (u64, u64),
    history_bindings: (u64, u64),
    composite_bindings: (u64, u64),
    fallback_binding: u64,
    placeholder: u64,
    history_index: bool,
    history_initialized: bool,
}

impl View for GBufferSet {
    type V = GBufferModel;

    closed spec fn view(&self) -> GBufferModel {
        GBufferModel {
            width: self.width,
            height: self.height,
            first: self.color as nat,
            placeholder: self.placeholder,
            index: self.history_index,
            initialized: self.history_initialized,
        }
    }
}

impl GBufferSet {
    /// Every resource has the token its position names, and the placeholder
    /// was made before any of them.
    pub closed spec fn wf(&self) -> bool {
        &&& self.normal == self.color + 1
        &&& self.depth == self.color + 2
        &&& self.history.0 == self.color + 3
        &&& self.history.1 == self.color + 4
        &&& self.history_bindings.0 == self.color + 5
        &&& self.history_bindings.1 == self.color + 6
        &&& self.composite_bindings.0 == self.color + 7
        &&& self.composite_bindings.1 == self.color + 8
        &&& self.fallback_binding == self.color + 9
        &&& self.placeholder < self.color
    }

    /// Builds a set of the given size; `placeholder` is the fixed image read
    /// in place of history before any frame has been rendered.
    pub fn build(width: u32, height: u32, placeholder: u64, ids: &mut IdSource) -> (r: GBufferSet)
        requires
            placeholder < old(ids).next_token(),
            old(ids).next_token() + RESOURCE_COUNT <= u64::MAX,
        ensures
            r.wf(),
            r@ == fresh_model(width, height, placeholder, old(ids).next_token()),
            final(ids).next_token() == old(ids).next_token() + RESOURCE_COUNT,
    {
        let color = ids.fresh();
        let normal = ids.fresh();
        let depth = ids.fresh();
        let h0 = ids.fresh();
        let h1 = ids.fresh();
        let hb0 = ids.fresh();
        let hb1 = ids.fresh();
        let cb0 = ids.fresh();
        let cb1 = ids.fresh();
        let fallback = ids.fresh();
        GBufferSet {
            width,
            height,
            color,
            normal,
            depth,
            history: (h0, h1),
            history_bindings: (hb0, hb1),
            composite_bindings: (cb0, cb1),
            fallback_binding: fallback,
            placeholder,
            history_index: false,
            history_initialized: false,
        }
    }

    /// Rebuilds the whole set when the target's size differs from the set's,
    /// and reports whether it did.
    pub fn ensure_for(&mut self, width: u32, height: u32, ids: &mut IdSource) -> (rebuilt: bool)
        requires
            old(self).wf(),
            old(self)@.first + RESOURCE_COUNT <= old(ids).next_token(),
            old(ids).next_token() + RESOURCE_COUNT <= u64::MAX,
        ensures
            final(self).wf(),
            rebuilt == (width != old(self)@.width || height != old(self)@.height),
            rebuilt ==> final(self)@ == fresh_model(
                width,
                height,
                old(self)@.placeholder,
                old(ids).next_token(),
            ) && final(ids).next_token() == old(ids).next_token() + RESOURCE_COUNT,
            !rebuilt ==> final(self)@ == old(self)@ && final(ids).next_token() == old(
                ids,
            ).next_token(),
            final(self)@.first + RESOURCE_COUNT <= final(ids).next_token(),
    {
        if width != self.width || height != self.height {
            *self = GBufferSet::build(width, height, self.placeholder, ids);
            true
        } else {
            false
        }
    }

    /// Starts a frame: switches to the other history attachment and returns
    /// what the frame binds.
    pub fn begin_frame(&mut self) -> (r: FrameBindings)
        requires
            old(self).wf(),
        ensures
            final(self).wf(),
            final(self)@ == toggled(old(self)@),
            r == bindings_of(final(self)@),
    {
        self.history_index = !self.history_index;
        let (written, other, history_binding, composite_binding) = if self.history_index {
            (self.history.1, self.history.0, self.history_bindings.1, self.composite_bindings.1)
        } else {
            (self.history.0, self.history.1, self.history_bindings.0, self.composite_bindings.0)
        };
        let (read, read_binding) = if self.history_initialized {
            (other, history_binding)
        } else {
            (self.placeholder, self.fallback_binding)
        };
        FrameBindings { written, read, read_binding, composite_binding }
    }

    /// Ends a frame that rendered successfully: its history is now readable.
    pub fn end_frame(&mut self)
        requires
            old(self).wf(),
        ensures
            final(self).wf(),
            final(self)@ == ended(old(self)@),
    {
        self.history_initialized = true;
    }

    pub fn history_initialized(&self) -> (r: bool)
        ensures
            r == self@.initialized,
    {
        self.history_initialized
    }

    pub fn dimensions(&self) -> (r: (u32, u32))
        ensures
            r == (self@.width, self@.height),
    {
        (self.width, self.height)
    }

    /// The color, normal, depth and two history attachments, in that order.
    pub fn attachments(&self) -> (r: [u64; 5])
        requires
            self.wf(),
        ensures
            forall|i: int| 0 <= i < 5 ==> r@[i] == resource(self@, i),
    {
        [self.color, self.normal, self.depth, self.history.0, self.history.1]
    }
}

/// A rebuild replaces every resource: none of the new set's tokens is a token
/// of the set it replaces.
pub proof fn lemma_rebuild_replaces_all(
    old_set: GBufferModel,
    width: u32,
    height: u32,
    next: nat,
)
    requires
        old_set.first + RESOURCE_COUNT <= next,
    ensures
        forall|i: int, j: int|
            0 <= i < RESOURCE_COUNT && 0 <= j < RESOURCE_COUNT ==> #[trigger] resource(
                fresh_model(width, height, old_set.placeholder, next),
                i,
            ) != #[trigger] resource(old_set, j),
{
}

/// The first frame of a fresh set reads the placeholder, not the attachment
/// it writes; once a frame has ended, the next frame reads exactly the
/// attachment that frame wrote, which is not the one it writes itself.
pub proof fn lemma_history_fallback(width: u32, height: u32, placeholder: u64, first: nat)
    requires
        placeholder < first,
        first + RESOURCE_COUNT <= u64::MAX,
    ensures
        ({
            let frame1 = toggled(fresh_model(width, height, placeholder, first));
            let frame2 = toggled(ended(frame1));
            &&& bindings_of(frame1).read == placeholder
            &&& bindings_of(frame1).read != bindings_of(frame1).written
            &&& ended(frame1).initialized
            &&& bindings_of(frame2).read == bindings_of(frame1).written
            &&& bindings_of(frame2).read != bindings_of(frame2).written
        }),
{
}

/// In steady state each frame reads what the previous frame wrote.
pub proof fn lemma_history_ping_pong(m: GBufferModel)
    requires
        m.initialized,
        m.first + RESOURCE_COUNT <= u64::MAX,
    ensures
        bindings_of(toggled(ended(m))).read == bindings_of(m).written,
        bindings_of(toggled(ended(m))).written != bindings_of(m).written,
{
}

} // verus!

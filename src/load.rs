//! The per-resource load-state machine shared by textures, glyphs and meshes.
//!
//! A resource is first loading through a [`ChainedTask`]; the CPU stage's
//! output already carries a submitted GPU upload, so when the chain succeeds
//! the resource waits on the upload's fence, and once the fence is signalled
//! the resource is ready to draw. Failures are terminal. The render loop feeds
//! one observation per frame and never blocks.
use vstd::prelude::*;
use crate::task::{ChainAction, ChainError, ChainEvent, ChainStage, ChainedTask, FenceStatus, chain_next};

verus! {

/// Why a resource never became ready.
#[derive(Debug)]
pub enum LoadError<DE, CE, GE> {
    Disk(DE),
    Decode(CE),
    Gpu(GE),
}

pub enum LoadState<U, DE, CE, GE> {
    /// The disk or CPU stage is running.
    Disk(ChainedTask<U, DE, CE>),
    /// The upload was submitted; its fence has not been seen signalled.
    Gpu(U),
    Ready(U),
    Failed(LoadError<DE, CE, GE>),
}

/// One observation of a loading resource.
pub enum LoadEvent<D, U, DE, CE, GE> {
    Chain(ChainEvent<D, U, DE, CE>),
    Fence(FenceStatus<GE>),
}

/// How far a load has come; it never goes down.
pub open spec fn rank<U, DE, CE, GE>(s: LoadState<U, DE, CE, GE>) -> int {
    match s {
        LoadState::Disk(c) => if c.stage() is AwaitingDisk { 0int } else { 1int },
        LoadState::Gpu(_) => 2,
        LoadState::Ready(_) => 3,
        LoadState::Failed(_) => 3,
    }
}

/// The load state that a chain stage stands for: a finished chain hands its
/// output to the GPU wait, or its error to the failed state.
pub open spec fn settle<U, DE, CE, GE>(c: ChainedTask<U, DE, CE>) -> LoadState<U, DE, CE, GE> {
    match c.stage() {
        ChainStage::Done(Ok(u)) => LoadState::Gpu(u),
        ChainStage::Done(Err(ChainError::Disk(e))) => LoadState::Failed(LoadError::Disk(e)),
        ChainStage::Done(Err(ChainError::Decode(e))) => LoadState::Failed(LoadError::Decode(e)),
        _ => LoadState::Disk(c),
    }
}

impl<U, DE, CE, GE> LoadState<U, DE, CE, GE> {
    /// A loading resource never holds a finished chain.
    pub open spec fn wf(&self) -> bool {
        match self {
            LoadState::Disk(c) => !(c.stage() is Done),
            _ => true,
        }
    }

    /// The state after one observation, with the action the poller must take.
    pub open spec fn next<D>(self, event: LoadEvent<D, U, DE, CE, GE>) -> (
        LoadState<U, DE, CE, GE>,
        ChainAction<D>,
    ) {
        match (self, event) {
            (LoadState::Disk(c), LoadEvent::Chain(ev)) => {
                let (stage, action) = chain_next(c.stage(), ev);
                (settle(ChainedTask { stage }), action)
            },
            (LoadState::Gpu(u), LoadEvent::Fence(FenceStatus::Signaled)) => (
                LoadState::Ready(u),
                ChainAction::Wait,
            ),
            (LoadState::Gpu(_), LoadEvent::Fence(FenceStatus::Failed(e))) => (
                LoadState::Failed(LoadError::Gpu(e)),
                ChainAction::Wait,
            ),
            (s, _) => (s, ChainAction::Wait),
        }
    }

    /// A resource whose disk stage has just been dispatched.
    pub fn new() -> (r: LoadState<U, DE, CE, GE>)
        ensures
            r.wf(),
            r is Disk && r->Disk_0.stage() is AwaitingDisk,
    {
        LoadState::Disk(ChainedTask::new())
    }

    /// Feeds one observation: a chain observation while loading, a fence
    /// status while waiting on the upload. Anything else changes nothing.
    pub fn advance<D>(&mut self, event: LoadEvent<D, U, DE, CE, GE>) -> (r: ChainAction<D>)
        requires
            old(self).wf(),
        ensures
            final(self).wf(),
            (*final(self), r) == old(self).next(event),
    {
        let mut state = LoadState::Disk(ChainedTask::new());
        std::mem::swap(self, &mut state);
        let (next, action) = match (state, event) {
            (LoadState::Disk(mut c), LoadEvent::Chain(ev)) => {
                let action = c.step(ev);
                (settle_chain(c), action)
            },
            (LoadState::Gpu(u), LoadEvent::Fence(FenceStatus::Signaled)) => (
                LoadState::Ready(u),
                ChainAction::Wait,
            ),
            (LoadState::Gpu(_), LoadEvent::Fence(FenceStatus::Failed(e))) => (
                LoadState::Failed(LoadError::Gpu(e)),
                ChainAction::Wait,
            ),
            (s, _) => (s, ChainAction::Wait),
        };
        *self = next;
        action
    }

    /// Whether the resource can be drawn this frame.
    pub fn is_ready(&self) -> (r: bool)
        ensures
            r == self is Ready,
    {
        matches!(self, LoadState::Ready(_))
    }

    /// The drawable value, only in the ready state; the same on every call.
    pub fn ready_value(&self) -> (r: Option<&U>)
        ensures
            self is Ready ==> r == Some(&self->Ready_0),
            !(self is Ready) ==> r is None,
    {
        match self {
            LoadState::Ready(u) => Some(u),
            _ => None,
        }
    }

    /// Whether the resource will never become ready.
    pub fn is_failed(&self) -> (r: bool)
        ensures
            r == self is Failed,
    {
        matches!(self, LoadState::Failed(_))
    }
}

/// Loads only move forward: no state is revisited, and a ready or failed
/// resource stays exactly as it is whatever is observed afterwards.
pub proof fn lemma_load_is_monotonic<D, U, DE, CE, GE>(
    s: LoadState<U, DE, CE, GE>,
    event: LoadEvent<D, U, DE, CE, GE>,
)
    requires
        s.wf(),
    ensures
        s.next(event).0.wf(),
        rank(s.next(event).0) >= rank(s),
        (s is Ready || s is Failed) ==> s.next(event).0 == s,
{
}

/// The state after a sequence of observations, and whether the load passed
/// through the GPU stage on the way.
pub open spec fn load_run<D, U, DE, CE, GE>(
    s: LoadState<U, DE, CE, GE>,
    events: Seq<LoadEvent<D, U, DE, CE, GE>>,
) -> (LoadState<U, DE, CE, GE>, bool)
    decreases events.len(),
{
    if events.len() == 0 {
        (s, s is Gpu)
    } else {
        let (end, gpu) = load_run(s.next(events[0]).0, events.drop_first());
        (end, gpu || s is Gpu)
    }
}

/// The load failed in its disk or CPU stage.
pub open spec fn failed_before_gpu<U, DE, CE, GE>(s: LoadState<U, DE, CE, GE>) -> bool {
    s is Failed && !(s->Failed_0 is Gpu)
}

proof fn lemma_gpu_stage_leads_past_cpu<D, U, DE, CE, GE>(
    s: LoadState<U, DE, CE, GE>,
    events: Seq<LoadEvent<D, U, DE, CE, GE>>,
)
    requires
        s.wf(),
        s is Gpu || s is Ready || (s is Failed && s->Failed_0 is Gpu),
    ensures
        !failed_before_gpu(load_run(s, events).0),
    decreases events.len(),
{
    if events.len() > 0 {
        lemma_gpu_stage_leads_past_cpu(s.next(events[0]).0, events.drop_first());
    }
}

/// A load whose disk or CPU stage fails never reaches the GPU stage, so no
/// upload is waited on for it, whatever is observed.
pub proof fn lemma_failed_load_never_uploads<D, U, DE, CE, GE>(
    s: LoadState<U, DE, CE, GE>,
    events: Seq<LoadEvent<D, U, DE, CE, GE>>,
)
    requires
        s.wf(),
        s is Disk,
        failed_before_gpu(load_run(s, events).0),
    ensures
        !load_run(s, events).1,
    decreases events.len(),
{
    if events.len() > 0 {
        let s1 = s.next(events[0]).0;
        if s1 is Disk {
            lemma_failed_load_never_uploads(s1, events.drop_first());
        } else if s1 is Gpu {
            lemma_gpu_stage_leads_past_cpu(s1, events.drop_first());
        } else {
            lemma_stays_failed(s1, events.drop_first());
        }
    }
}

proof fn lemma_stays_failed<D, U, DE, CE, GE>(
    s: LoadState<U, DE, CE, GE>,
    events: Seq<LoadEvent<D, U, DE, CE, GE>>,
)
    requires
        s is Failed,
    ensures
        load_run(s, events) == (s, false),
    decreases events.len(),
{
    if events.len() > 0 {
        lemma_stays_failed(s.next(events[0]).0, events.drop_first());
    }
}

fn settle_chain<U, DE, CE, GE>(c: ChainedTask<U, DE, CE>) -> (r: LoadState<U, DE, CE, GE>)
    ensures
        r == settle::<U, DE, CE, GE>(c),
{
    match c.stage {
        ChainStage::Done(Ok(u)) => LoadState::Gpu(u),
        ChainStage::Done(Err(ChainError::Disk(e))) => LoadState::Failed(LoadError::Disk(e)),
        ChainStage::Done(Err(ChainError::Decode(e))) => LoadState::Failed(LoadError::Decode(e)),
        stage => LoadState::Disk(ChainedTask { stage }),
    }
}

} // verus!

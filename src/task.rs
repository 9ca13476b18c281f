//! Pollable single-result tasks and the two-stage disk-then-CPU chain.
//!
//! Worker threads and result channels live at the edge of the library: a
//! poller hands each state machine here what its channel or fence delivered,
//! and the machine decides what the task holds and what is to be dispatched
//! next. Nothing here blocks.
use vstd::prelude::*;

verus! {

/// A single-result computation that resolves at most once.
pub struct Task<T, E> {
    outcome: Option<Result<T, E>>,
}

/// The outcome after one poll: the first delivered result is kept forever.
pub open spec fn after_poll<T, E>(
    outcome: Option<Result<T, E>>,
    delivered: Option<Result<T, E>>,
) -> Option<Result<T, E>> {
    if outcome is Some {
        outcome
    } else {
        delivered
    }
}

/// The outcome after polling once with each delivery in turn.
pub open spec fn after_polls<T, E>(
    outcome: Option<Result<T, E>>,
    deliveries: Seq<Option<Result<T, E>>>,
) -> Option<Result<T, E>>
    decreases deliveries.len(),
{
    if deliveries.len() == 0 {
        outcome
    } else {
        after_polls(after_poll(outcome, deliveries[0]), deliveries.drop_first())
    }
}

impl<T, E> Task<T, E> {
    pub closed spec fn outcome(&self) -> Option<Result<T, E>> {
        self.outcome
    }

    pub fn new() -> (r: Task<T, E>)
        ensures
            r.outcome() is None,
    {
        Task { outcome: None }
    }

    /// Takes what the task's result channel delivered since the last poll
    /// (`None` when nothing came) and reports whether the task is resolved.
    /// Once resolved, later deliveries are ignored.
    pub fn poll(&mut self, delivered: Option<Result<T, E>>) -> (r: bool)
        ensures
            final(self).outcome() == after_poll(old(self).outcome(), delivered),
            r == final(self).outcome() is Some,
    {
        if self.outcome.is_none() {
            self.outcome = delivered;
        }
        self.outcome.is_some()
    }

    /// Consumes the task, handing over its result if it has one.
    pub fn into_outcome(self) -> (r: Option<Result<T, E>>)
        ensures
            r == self.outcome(),
    {
        self.outcome
    }

    /// The result, once resolved; the same value on every call.
    pub fn outcome_ref(&self) -> (r: &Option<Result<T, E>>)
        ensures
            *r == self.outcome(),
    {
        &self.outcome
    }
}

/// Once a task is resolved, any number of further polls leave its result
/// unchanged, whatever is delivered.
pub proof fn lemma_resolved_task_is_stable<T, E>(
    outcome: Option<Result<T, E>>,
    deliveries: Seq<Option<Result<T, E>>>,
)
    requires
        outcome is Some,
    ensures
        after_polls(outcome, deliveries) == outcome,
    decreases deliveries.len(),
{
    if deliveries.len() > 0 {
        lemma_resolved_task_is_stable(after_poll(outcome, deliveries[0]), deliveries.drop_first());
    }
}

/// What a zero-timeout wait on a GPU fence reported.
pub enum FenceStatus<E> {
    Signaled,
    Timeout,
    Failed(E),
}

/// The delivery a fence wait makes to a completion task: signalled resolves
/// it, a timeout leaves it pending, and any other error resolves it to that
/// error for good.
pub open spec fn fence_delivery<E>(status: FenceStatus<E>) -> Option<Result<(), E>> {
    match status {
        FenceStatus::Signaled => Some(Ok(())),
        FenceStatus::Timeout => None,
        FenceStatus::Failed(e) => Some(Err(e)),
    }
}

pub fn fence_outcome<E>(status: FenceStatus<E>) -> (r: Option<Result<(), E>>)
    ensures
        r == fence_delivery(status),
{
    match status {
        FenceStatus::Signaled => Some(Ok(())),
        FenceStatus::Timeout => None,
        FenceStatus::Failed(e) => Some(Err(e)),
    }
}

/// Completion of a submitted GPU upload, observed through zero-timeout fence
/// waits. Once resolved it asks for no further fence checks.
pub struct GpuCompletion<E> {
    task: Task<(), E>,
}

impl<E> GpuCompletion<E> {
    pub closed spec fn outcome(&self) -> Option<Result<(), E>> {
        self.task.outcome()
    }

    pub fn new() -> (r: GpuCompletion<E>)
        ensures
            r.outcome() is None,
    {
        GpuCompletion { task: Task::new() }
    }

    /// Whether the fence still has to be checked.
    pub fn needs_check(&self) -> (r: bool)
        ensures
            r == self.outcome() is None,
    {
        self.task.outcome_ref().is_none()
    }

    /// Takes the status of one zero-timeout wait and reports whether the
    /// upload is resolved: signalled or failed for good.
    pub fn poll(&mut self, status: FenceStatus<E>) -> (r: bool)
        ensures
            final(self).outcome() == after_poll(old(self).outcome(), fence_delivery(status)),
            r == final(self).outcome() is Some,
    {
        self.task.poll(fence_outcome(status))
    }

    pub fn outcome_ref(&self) -> (r: &Option<Result<(), E>>)
        ensures
            *r == self.outcome(),
    {
        self.task.outcome_ref()
    }
}

/// The stage that failed in a chained task.
#[derive(Debug)]
pub enum ChainError<DE, CE> {
    Disk(DE),
    Decode(CE),
}

/// Where a chained task stands.
pub enum ChainStage<T, DE, CE> {
    AwaitingDisk,
    AwaitingCpu,
    Done(Result<T, ChainError<DE, CE>>),
}

/// What a poll of a chained task observed: nothing yet, the disk stage's
/// result, or the CPU stage's result.
pub enum ChainEvent<D, T, DE, CE> {
    Nothing,
    DiskDone(Result<D, DE>),
    CpuDone(Result<T, CE>),
}

/// What the poller must do after a step.
#[derive(Debug)]
pub enum ChainAction<D> {
    Wait,
    /// Hand the disk stage's output to the CPU stage on the CPU pool.
    DispatchCpu(D),
}

/// One step of the chain: the stage it moves to and the action it asks for.
/// The CPU stage is dispatched only on a successful disk result received
/// while awaiting the disk; a disk error ends the chain at once.
pub open spec fn chain_next<D, T, DE, CE>(
    stage: ChainStage<T, DE, CE>,
    event: ChainEvent<D, T, DE, CE>,
) -> (ChainStage<T, DE, CE>, ChainAction<D>) {
    match (stage, event) {
        (ChainStage::AwaitingDisk, ChainEvent::DiskDone(Ok(d))) => (
            ChainStage::AwaitingCpu,
            ChainAction::DispatchCpu(d),
        ),
        (ChainStage::AwaitingDisk, ChainEvent::DiskDone(Err(e))) => (
            ChainStage::Done(Err(ChainError::Disk(e))),
            ChainAction::Wait,
        ),
        (ChainStage::AwaitingCpu, ChainEvent::CpuDone(Ok(t))) => (
            ChainStage::Done(Ok(t)),
            ChainAction::Wait,
        ),
        (ChainStage::AwaitingCpu, ChainEvent::CpuDone(Err(e))) => (
            ChainStage::Done(Err(ChainError::Decode(e))),
            ChainAction::Wait,
        ),
        (s, _) => (s, ChainAction::Wait),
    }
}

/// The stage after a sequence of events, and how many times the CPU stage
/// was dispatched on the way.
pub open spec fn chain_run<D, T, DE, CE>(
    stage: ChainStage<T, DE, CE>,
    events: Seq<ChainEvent<D, T, DE, CE>>,
) -> (ChainStage<T, DE, CE>, nat)
    decreases events.len(),
{
    if events.len() == 0 {
        (stage, 0)
    } else {
        let (s1, a) = chain_next(stage, events[0]);
        let (s2, n) = chain_run(s1, events.drop_first());
        (s2, n + if a is DispatchCpu { 1nat } else { 0nat })
    }
}

/// A two-stage task: a disk stage whose output feeds a CPU stage.
pub struct ChainedTask<T, DE, CE> {
    pub stage: ChainStage<T, DE, CE>,
}

impl<T, DE, CE> ChainedTask<T, DE, CE> {
    pub open spec fn stage(&self) -> ChainStage<T, DE, CE> {
        self.stage
    }

    /// A chain whose disk stage has just been dispatched.
    pub fn new() -> (r: ChainedTask<T, DE, CE>)
        ensures
            r.stage() is AwaitingDisk,
    {
        ChainedTask { stage: ChainStage::AwaitingDisk }
    }

    /// Feeds one observation to the chain.
    pub fn step<D>(&mut self, event: ChainEvent<D, T, DE, CE>) -> (r: ChainAction<D>)
        ensures
            (final(self).stage(), r) == chain_next(old(self).stage(), event),
    {
        let mut stage = ChainStage::AwaitingDisk;
        std::mem::swap(&mut self.stage, &mut stage);
        let (next, action) = match (stage, event) {
            (ChainStage::AwaitingDisk, ChainEvent::DiskDone(Ok(d))) => (
                ChainStage::AwaitingCpu,
                ChainAction::DispatchCpu(d),
            ),
            (ChainStage::AwaitingDisk, ChainEvent::DiskDone(Err(e))) => (
                ChainStage::Done(Err(ChainError::Disk(e))),
                ChainAction::Wait,
            ),
            (ChainStage::AwaitingCpu, ChainEvent::CpuDone(Ok(t))) => (
                ChainStage::Done(Ok(t)),
                ChainAction::Wait,
            ),
            (ChainStage::AwaitingCpu, ChainEvent::CpuDone(Err(e))) => (
                ChainStage::Done(Err(ChainError::Decode(e))),
                ChainAction::Wait,
            ),
            (s, _) => (s, ChainAction::Wait),
        };
        self.stage = next;
        action
    }

    pub fn is_done(&self) -> (r: bool)
        ensures
            r == self.stage() is Done,
    {
        matches!(self.stage, ChainStage::Done(_))
    }

    /// The chain's result, once done.
    pub fn result(self) -> (r: Option<Result<T, ChainError<DE, CE>>>)
        ensures
            self.stage() is Done ==> r == Some(self.stage()->Done_0),
            !(self.stage() is Done) ==> r is None,
    {
        match self.stage {
            ChainStage::Done(r) => Some(r),
            _ => None,
        }
    }
}

/// The chain ended because its disk stage failed.
pub open spec fn failed_on_disk<T, DE, CE>(stage: ChainStage<T, DE, CE>) -> bool {
    stage is Done && stage->Done_0 is Err && stage->Done_0->Err_0 is Disk
}

proof fn lemma_chain_past_disk<D, T, DE, CE>(
    stage: ChainStage<T, DE, CE>,
    events: Seq<ChainEvent<D, T, DE, CE>>,
)
    requires
        !(stage is AwaitingDisk),
    ensures
        chain_run(stage, events).1 == 0,
        stage is AwaitingCpu ==> !failed_on_disk(chain_run(stage, events).0),
        stage is Done ==> chain_run(stage, events).0 == stage,
    decreases events.len(),
{
    if events.len() > 0 {
        lemma_chain_past_disk(chain_next(stage, events[0]).0, events.drop_first());
    }
}

/// Ordering of a chained task started with its disk stage: whatever is
/// observed, the CPU stage is dispatched at most once, only after some
/// successful disk result was observed, and never when the chain ends with a
/// disk error.
pub proof fn lemma_cpu_stage_follows_disk<D, T, DE, CE>(events: Seq<ChainEvent<D, T, DE, CE>>)
    ensures
        chain_run(ChainStage::AwaitingDisk, events).1 <= 1,
        chain_run(ChainStage::AwaitingDisk, events).1 == 1 ==> exists|i: int|
            0 <= i < events.len() && #[trigger] events[i] is DiskDone && events[i]->DiskDone_0 is Ok,
        failed_on_disk(chain_run(ChainStage::AwaitingDisk, events).0) ==> chain_run(
            ChainStage::AwaitingDisk,
            events,
        ).1 == 0,
    decreases events.len(),
{
    if events.len() > 0 {
        let e = events[0];
        let rest = events.drop_first();
        let s1 = chain_next(ChainStage::<T, DE, CE>::AwaitingDisk, e).0;
        if s1 is AwaitingDisk {
            lemma_cpu_stage_follows_disk(rest);
            if chain_run(ChainStage::AwaitingDisk, events).1 == 1 {
                let i = choose|i: int|
                    0 <= i < rest.len() && #[trigger] rest[i] is DiskDone && rest[i]->DiskDone_0 is Ok;
                assert(events[i + 1] == rest[i]);
            }
        } else {
            lemma_chain_past_disk(s1, rest);
            assert(events[0] is DiskDone);
        }
    }
}

} // verus!

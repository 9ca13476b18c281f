//! Decisions of the present step.
//!
//! The windowing side raises a resize flag; each present checks it once and
//! recreates the swapchain if it was raised. Recreating, acquiring an image
//! and flushing the frame may each report that the surface is out of date (or
//! that its dimensions are unsupported right now): the frame is then skipped
//! and the flag raised again so the next present retries. Any other failure is
//! terminal and is handed back.
use vstd::prelude::*;

verus! {

/// What a swapchain operation reported.
pub enum SurfaceOutcome<T, E> {
    Done(T),
    /// The surface changed under the swapchain; retry on the next present.
    OutOfDate,
    Failed(E),
}

pub struct Presenter {
    resized: bool,
}

impl Presenter {
    pub closed spec fn resize_pending(&self) -> bool {
        self.resized
    }

    pub fn new() -> (r: Presenter)
        ensures
            !r.resize_pending(),
    {
        Presenter { resized: false }
    }

    /// The windowing side reports a resize.
    pub fn request_resize(&mut self)
        ensures
            final(self).resize_pending(),
    {
        self.resized = true;
    }

    /// Checks the flag once at the start of a present: returns whether the
    /// swapchain must be recreated, and lowers the flag.
    pub fn take_resize(&mut self) -> (r: bool)
        ensures
            r == old(self).resize_pending(),
            !final(self).resize_pending(),
    {
        let r = self.resized;
        self.resized = false;
        r
    }

    /// Settles one swapchain step: its value when it succeeded, `None` when
    /// the frame is to be skipped (the flag is then raised again), the error
    /// when it failed for good.
    pub fn settle<T, E>(&mut self, outcome: SurfaceOutcome<T, E>) -> (r: Result<Option<T>, E>)
        ensures
            match outcome {
                SurfaceOutcome::Done(t) => r == Ok::<Option<T>, E>(Some(t))
                    && final(self).resize_pending() == old(self).resize_pending(),
                SurfaceOutcome::OutOfDate => r == Ok::<Option<T>, E>(None)
                    && final(self).resize_pending(),
                SurfaceOutcome::Failed(e) => r == Err::<Option<T>, E>(e)
                    && final(self).resize_pending() == old(self).resize_pending(),
            },
    {
        match outcome {
            SurfaceOutcome::Done(t) => Ok(Some(t)),
            SurfaceOutcome::OutOfDate => {
                self.resized = true;
                Ok(None)
            },
            SurfaceOutcome::Failed(e) => Err(e),
        }
    }
}

} // verus!

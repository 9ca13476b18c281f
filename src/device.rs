//! Choosing where a window's rendering runs.
//!
//! A window reuses the first device already created whose queue family can
//! both draw and present to the window's surface; failing that, the first
//! queue family of the first physical device that can do both is used.
use vstd::prelude::*;

verus! {

/// What a queue family offers a given surface.
#[derive(Clone, Copy, Debug, PartialEq, Eq, Structural)]
pub struct QueueSupport {
    pub graphics: bool,
    pub presents: bool,
}

pub open spec fn usable(q: QueueSupport) -> bool {
    q.graphics && q.presents
}

/// Index of the first queue family that can draw and present, if any.
pub fn first_usable(qs: &Vec<QueueSupport>) -> (r: Option<usize>)
    ensures
        match r {
            Some(i) => i < qs@.len() && usable(qs@[i as int]) && forall|k: int|
                0 <= k < i ==> !usable(#[trigger] qs@[k]),
            None => forall|k: int| 0 <= k < qs@.len() ==> !usable(#[trigger] qs@[k]),
        },
{
    let mut i: usize = 0;
    while i < qs.len()
        invariant
            i <= qs@.len(),
            forall|k: int| 0 <= k < i ==> !usable(#[trigger] qs@[k]),
        decreases qs@.len() - i,
    {
        if qs[i].graphics && qs[i].presents {
            return Some(i);
        }
        i = i + 1;
    }
    None
}

/// Where a window's rendering runs.
#[derive(Clone, Copy, Debug, PartialEq, Eq, Structural)]
pub enum DeviceChoice {
    /// Reuse the device created earlier at this index.
    Existing(usize),
    /// Create a device on the first physical device, with this queue family.
    New(usize),
    /// No device can draw to the surface.
    Unsupported,
}

/// Chooses between the queues of devices already created (one entry each) and
/// the queue families of the first physical device.
pub fn choose_device(existing: &Vec<QueueSupport>, families: &Vec<QueueSupport>) -> (r: DeviceChoice)
    ensures
        match r {
            DeviceChoice::Existing(i) => i < existing@.len() && usable(existing@[i as int])
                && forall|k: int| 0 <= k < i ==> !usable(#[trigger] existing@[k]),
            DeviceChoice::New(i) => (forall|k: int| 0 <= k < existing@.len() ==> !usable(#[trigger] existing@[k]))
                && i < families@.len() && usable(families@[i as int])
                && forall|k: int| 0 <= k < i ==> !usable(#[trigger] families@[k]),
            DeviceChoice::Unsupported => (forall|k: int| 0 <= k < existing@.len() ==> !usable(#[trigger] existing@[k]))
                && forall|k: int| 0 <= k < families@.len() ==> !usable(#[trigger] families@[k]),
        },
{
    match first_usable(existing) {
        Some(i) => DeviceChoice::Existing(i),
        None => match first_usable(families) {
            Some(i) => DeviceChoice::New(i),
            None => DeviceChoice::Unsupported,
        },
    }
}

} // verus!

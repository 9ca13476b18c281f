//! The status a renderer driver reports to its host.
use vstd::prelude::*;

verus! {

/// The interface version this driver implements.
pub const DRIVER_API_VERSION: u64 = 0;

#[allow(non_camel_case_types)]
#[derive(Clone, Copy, Debug, PartialEq, Eq, Structural)]
pub enum GGDriverStatus {
    GGD_STATUS_DRIVER_INVALID,
    GGD_STATUS_DRIVER_READY,
    GGD_STATUS_DRIVER_ERROR,
    GGD_STATUS_VERSION_INVALID,
}

impl GGDriverStatus {
    /// The numeric code of the status at the host interface.
    pub fn code(self) -> (r: u32)
        ensures
            r == match self {
                GGDriverStatus::GGD_STATUS_DRIVER_INVALID => 0u32,
                GGDriverStatus::GGD_STATUS_DRIVER_READY => 1u32,
                GGDriverStatus::GGD_STATUS_DRIVER_ERROR => 2u32,
                GGDriverStatus::GGD_STATUS_VERSION_INVALID => 3u32,
            },
    {
        match self {
            GGDriverStatus::GGD_STATUS_DRIVER_INVALID => 0,
            GGDriverStatus::GGD_STATUS_DRIVER_READY => 1,
            GGDriverStatus::GGD_STATUS_DRIVER_ERROR => 2,
            GGDriverStatus::GGD_STATUS_VERSION_INVALID => 3,
        }
    }
}

/// A host asking for interface `version` gets a ready driver only when the
/// version is the one implemented here.
pub fn driver_status(version: u64) -> (r: GGDriverStatus)
    ensures
        r == if version == DRIVER_API_VERSION {
            GGDriverStatus::GGD_STATUS_DRIVER_READY
        } else {
            GGDriverStatus::GGD_STATUS_VERSION_INVALID
        },
{
    if version == DRIVER_API_VERSION {
        GGDriverStatus::GGD_STATUS_DRIVER_READY
    } else {
        GGDriverStatus::GGD_STATUS_VERSION_INVALID
    }
}

} // verus!

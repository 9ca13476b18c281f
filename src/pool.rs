//! Sizing of the worker pools that run loads.
//!
//! Disk reads run on a single thread so that concurrently loading assets do
//! not thrash the disk; decoding runs on all cores but the one that drives the
//! render loop; GPU continuations get a thread of their own.
use vstd::prelude::*;

verus! {

pub const DISK_POOL_THREADS: usize = 1;

pub const GPU_EXECUTOR_THREADS: usize = 1;

/// One thread per core, keeping one core for the render loop, and at least one.
pub open spec fn cpu_threads_for(cores: int) -> int {
    if cores >= 2 {
        cores - 1
    } else {
        1
    }
}

pub fn cpu_pool_threads_for(cores: usize) -> (r: usize)
    ensures
        r == cpu_threads_for(cores as int),
{
    if cores >= 2 {
        cores - 1
    } else {
        1
    }
}

/// Relies on `num_cpus::get`: the number of CPUs this process may run on.
/// It depends on the machine, so nothing is stated of it.
#[verifier::external_body]
fn available_cores() -> usize {
    num_cpus::get()
}

/// The size of the CPU pool on this machine.
pub fn cpu_pool_threads() -> (r: usize)
    ensures
        r >= 1,
{
    cpu_pool_threads_for(available_cores())
}

} // verus!

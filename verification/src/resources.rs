//! Capacity figures of the host and the worker-pool size derived from them.

use vstd::math::max;
use vstd::prelude::*;

verus! {

pub const DEFAULT_ULIMIT: usize = 2048;

pub const DEFAULT_MEMORY_AVAILABLE: usize = 8;

pub const DEFAULT_BITCOIND_RPC_THREADS: usize = 4;

pub const DEFAULT_BITCOIND_RPC_TIMEOUT: u32 = 15;

/// Cores that a worker pool leaves to its surroundings: one thread feeds the
/// pool, another reduces what the workers hand back.
pub const RESERVED_CORES: usize = 2;

/// Size of a worker pool on a host with `cpu_core_available` cores: what is
/// left once the reserved cores are set aside, and never less than one.
pub open spec fn optimal_thread_pool_capacity(cpu_core_available: int) -> int {
    max(cpu_core_available - RESERVED_CORES, 1)
}

/// `num_cpus::get`: the number of logical cores that the host offers this
/// process. It differs from machine to machine, so nothing is claimed of it.
#[verifier::external_body]
pub(crate) fn host_core_count() -> (cores: usize) {
    num_cpus::get()
}

#[derive(Clone, Copy, Debug)]
pub struct ResourcesConfig {
    pub ulimit: usize,
    pub cpu_core_available: usize,
    /// In gigabytes.
    pub memory_available: usize,
    pub bitcoind_rpc_threads: usize,
    /// In seconds.
    pub bitcoind_rpc_timeout: u32,
    pub expected_observers_count: usize,
}

impl ResourcesConfig {
    pub fn get_optimal_thread_pool_capacity(&self) -> (capacity: usize)
        ensures
            capacity == optimal_thread_pool_capacity(self.cpu_core_available as int),
            capacity >= 1,
    {
        self.cpu_core_available.saturating_sub(RESERVED_CORES).max(1)
    }
}

} // verus!

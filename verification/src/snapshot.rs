//! One reading of the machine, taken fresh for every cycle.

use vstd::prelude::*;

verus! {

/// The metrics that one cycle decides on.  A snapshot is never changed after
/// it was made, and it always counts at least one core.
#[derive(Debug, Clone, Copy)]
pub struct SystemSnapshot {
    normalized_load: u64,
    cpu_core_count: usize,
    swap_used_kib: u64,
}

/// Mathematical value of a [`SystemSnapshot`].
pub struct SnapshotView {
    /// Load average per core, in millionths.
    pub normalized_load: nat,
    pub cpu_core_count: nat,
    pub swap_used_kib: nat,
}

/// The core count that a snapshot holds for a reading of `cores`: a reading
/// of no core counts as one core.
pub open spec fn effective_cores(cores: nat) -> nat {
    if cores == 0 {
        1
    } else {
        cores
    }
}

impl View for SystemSnapshot {
    type V = SnapshotView;

    closed spec fn view(&self) -> SnapshotView {
        SnapshotView {
            normalized_load: self.normalized_load as nat,
            cpu_core_count: self.cpu_core_count as nat,
            swap_used_kib: self.swap_used_kib as nat,
        }
    }
}

impl SystemSnapshot {
    #[verifier::type_invariant]
    spec fn counts_a_core(self) -> bool {
        self.cpu_core_count >= 1
    }

    /// Makes a snapshot of the given metrics.
    pub fn new(normalized_load: u64, cpu_core_count: usize, swap_used_kib: u64) -> (snapshot:
        SystemSnapshot)
        ensures
            snapshot@ == (SnapshotView {
                normalized_load: normalized_load as nat,
                cpu_core_count: effective_cores(cpu_core_count as nat),
                swap_used_kib: swap_used_kib as nat,
            }),
    {
        let cores: usize = if cpu_core_count == 0 {
            1
        } else {
            cpu_core_count
        };
        SystemSnapshot { normalized_load, cpu_core_count: cores, swap_used_kib }
    }

    /// The snapshot that stands in when nothing can be read: no load, one
    /// core, no swap in use.
    pub fn fallback() -> (snapshot: SystemSnapshot)
        ensures
            snapshot@ == (SnapshotView { normalized_load: 0, cpu_core_count: 1, swap_used_kib: 0 }),
    {
        SystemSnapshot { normalized_load: 0, cpu_core_count: 1, swap_used_kib: 0 }
    }

    /// Load average per core, in millionths.
    pub fn normalized_load(&self) -> (load: u64)
        ensures
            load == self@.normalized_load,
    {
        self.normalized_load
    }

    /// Number of cores, at least one.
    pub fn cpu_core_count(&self) -> (cores: usize)
        ensures
            cores == self@.cpu_core_count,
            cores >= 1,
    {
        proof {
            use_type_invariant(self);
        }
        self.cpu_core_count
    }

    /// Swap in use, in KiB.
    pub fn swap_used_kib(&self) -> (used: u64)
        ensures
            used == self@.swap_used_kib,
    {
        self.swap_used_kib
    }
}

} // verus!

//! The fuzz host: the blockchain environment one execution runs against,
//! together with the owned coverage side channels (jump, read, write and
//! comparison maps) that the execution primitive writes and the feedback
//! pipeline reads. The maps are explicitly owned buffers, not process
//! globals, so independent fuzzing instances can coexist.

use vstd::prelude::*;
use crate::scheduler::PowerABIScheduler;
use crate::types::{EVMAddress, EVMU256};
use crate::vm::EVMState;

verus! {

/// Number of cells in each coverage map.
pub const MAP_SIZE: usize = 4096;

/// The map cell a contract-site pair hashes to.
pub open spec fn site_index(a: EVMAddress, pc: usize) -> int {
    (a.lo % 4096 + pc % 4096) % 4096
}

/// The map cell a storage slot hashes to.
pub open spec fn slot_site_index(a: EVMAddress, k: EVMU256) -> int {
    (a.lo % 4096 + k.lo % 4096) % 4096
}

/// Hash a contract-site pair into its map cell.
pub fn map_index(a: EVMAddress, pc: usize) -> (r: usize)
    ensures
        r == site_index(a, pc),
        r < MAP_SIZE,
{
    (((a.lo % 4096) as usize) + pc % 4096) % 4096
}

/// Hash a storage slot into its map cell.
pub fn slot_index(a: EVMAddress, k: EVMU256) -> (r: usize)
    ensures
        r == slot_site_index(a, k),
        r < MAP_SIZE,
{
    (((a.lo % 4096) as usize) + ((k.lo % 4096) as usize)) % 4096
}

/// A vector of `n` copies of `x`.
pub(crate) fn filled<T: Copy>(n: usize, x: T) -> (r: Vec<T>)
    ensures
        r@.len() == n,
        forall|i: int| 0 <= i < n ==> r@[i] == x,
{
    let mut r: Vec<T> = Vec::new();
    let mut i: usize = 0;
    while i < n
        invariant
            0 <= i <= n,
            r@.len() == i,
            forall|j: int| 0 <= j < i ==> r@[j] == x,
        decreases n - i,
    {
        r.push(x);
        i += 1;
    }
    r
}

/// The host an execution runs against: the current world state, the
/// transaction scheduler, the working directory name, and the four
/// coverage side channels.
pub struct FuzzHost {
    /// The world state executions mutate.
    pub evmstate: EVMState,
    /// The transaction scheduler this host reports to.
    pub scheduler: PowerABIScheduler,
    /// Working directory for artifacts; the host itself never touches the
    /// file system.
    pub work_dir: String,
    /// Per-edge saturating hit counters; never decrease within a run.
    pub jmp_map: Vec<u8>,
    /// Per-slot read flags.
    pub read_map: Vec<bool>,
    /// Per-slot saturating write counters.
    pub write_map: Vec<u8>,
    /// Per-comparison-site minimal observed operand distance; never
    /// increases within a run.
    pub cmp_map: Vec<EVMU256>,
}

impl FuzzHost {
    /// All four maps have their fixed size.
    pub open spec fn wf(self) -> bool {
        &&& self.jmp_map@.len() == MAP_SIZE
        &&& self.read_map@.len() == MAP_SIZE
        &&& self.write_map@.len() == MAP_SIZE
        &&& self.cmp_map@.len() == MAP_SIZE
    }

    /// A fresh host: empty world state, zeroed jump/read/write maps, and a
    /// comparison map at the largest distance everywhere.
    pub fn new(scheduler: PowerABIScheduler, workdir: String) -> (r: FuzzHost)
        ensures
            r.wf(),
            r.evmstate.state@.len() == 0,
            r.evmstate.balance@.len() == 0,
            r.evmstate.leaks().len() == 0,
            r.evmstate.observations_empty(),
            r.scheduler == scheduler,
            r.work_dir@ == workdir@,
            forall|i: int| 0 <= i < MAP_SIZE ==> r.jmp_map@[i] == 0,
            forall|i: int| 0 <= i < MAP_SIZE ==> r.read_map@[i] == false,
            forall|i: int| 0 <= i < MAP_SIZE ==> r.write_map@[i] == 0,
            forall|i: int| 0 <= i < MAP_SIZE ==> r.cmp_map@[i].as_nat() == crate::types::pow256()
                - 1,
    {
        FuzzHost {
            evmstate: EVMState::new(),
            scheduler,
            work_dir: workdir,
            jmp_map: filled(MAP_SIZE, 0u8),
            read_map: filled(MAP_SIZE, false),
            write_map: filled(MAP_SIZE, 0u8),
            cmp_map: filled(MAP_SIZE, EVMU256::max()),
        }
    }

    /// Count one traversal of the edge in cell `idx`; the counter
    /// saturates and never decreases.
    pub fn on_jump(&mut self, idx: usize)
        requires
            old(self).wf(),
            idx < MAP_SIZE,
        ensures
            final(self).wf(),
            final(self).jmp_map@ == old(self).jmp_map@.update(idx as int, (if old(
                self,
            ).jmp_map@[idx as int] == 255 {
                255u8
            } else {
                (old(self).jmp_map@[idx as int] + 1) as u8
            })),
            forall|j: int| 0 <= j < MAP_SIZE ==> final(self).jmp_map@[j] >= old(self).jmp_map@[j],
            final(self).evmstate == old(self).evmstate,
            final(self).scheduler == old(self).scheduler,
            final(self).work_dir == old(self).work_dir,
            final(self).read_map == old(self).read_map,
            final(self).write_map == old(self).write_map,
            final(self).cmp_map == old(self).cmp_map,
    {
        let cur = self.jmp_map[idx];
        let nv: u8 = if cur == 255 {
            255
        } else {
            cur + 1
        };
        self.jmp_map[idx] = nv;
    }

    /// Flag the storage cell `idx` as read.
    pub fn on_read(&mut self, idx: usize)
        requires
            old(self).wf(),
            idx < MAP_SIZE,
        ensures
            final(self).wf(),
            final(self).read_map@ == old(self).read_map@.update(idx as int, true),
            final(self).evmstate == old(self).evmstate,
            final(self).scheduler == old(self).scheduler,
            final(self).work_dir == old(self).work_dir,
            final(self).jmp_map == old(self).jmp_map,
            final(self).write_map == old(self).write_map,
            final(self).cmp_map == old(self).cmp_map,
    {
        self.read_map[idx] = true;
    }

    /// Count one write to the storage cell `idx`; the counter saturates.
    pub fn on_write(&mut self, idx: usize)
        requires
            old(self).wf(),
            idx < MAP_SIZE,
        ensures
            final(self).wf(),
            final(self).write_map@ == old(self).write_map@.update(idx as int, (if old(
                self,
            ).write_map@[idx as int] == 255 {
                255u8
            } else {
                (old(self).write_map@[idx as int] + 1) as u8
            })),
            final(self).evmstate == old(self).evmstate,
            final(self).scheduler == old(self).scheduler,
            final(self).work_dir == old(self).work_dir,
            final(self).jmp_map == old(self).jmp_map,
            final(self).read_map == old(self).read_map,
            final(self).cmp_map == old(self).cmp_map,
    {
        let cur = self.write_map[idx];
        let nv: u8 = if cur == 255 {
            255
        } else {
            cur + 1
        };
        self.write_map[idx] = nv;
    }

    /// Record the distance of a comparison's operands at cell `idx`: the
    /// cell keeps the smallest distance seen, so it only ever decreases.
    pub fn on_compare(&mut self, idx: usize, lhs: EVMU256, rhs: EVMU256)
        requires
            old(self).wf(),
            idx < MAP_SIZE,
        ensures
            final(self).wf(),
            final(self).cmp_map@.len() == MAP_SIZE,
            forall|j: int| 0 <= j < MAP_SIZE && j != idx ==> final(self).cmp_map@[j] == old(
                self,
            ).cmp_map@[j],
            final(self).cmp_map@[idx as int].as_nat() == (if distance_nat(lhs, rhs) < old(
                self,
            ).cmp_map@[idx as int].as_nat() {
                distance_nat(lhs, rhs)
            } else {
                old(self).cmp_map@[idx as int].as_nat()
            }),
            forall|j: int| 0 <= j < MAP_SIZE ==> final(self).cmp_map@[j].as_nat() <= old(
                self,
            ).cmp_map@[j].as_nat(),
            final(self).evmstate == old(self).evmstate,
            final(self).scheduler == old(self).scheduler,
            final(self).work_dir == old(self).work_dir,
            final(self).jmp_map == old(self).jmp_map,
            final(self).read_map == old(self).read_map,
            final(self).write_map == old(self).write_map,
    {
        let d = lhs.distance(rhs);
        let cur = self.cmp_map[idx];
        if d.lt(cur) {
            self.cmp_map[idx] = d;
        }
    }
}

/// Absolute difference of two words' integer views: how far a comparison
/// was from being an equality.
pub open spec fn distance_nat(lhs: EVMU256, rhs: EVMU256) -> nat {
    if lhs.as_nat() >= rhs.as_nat() {
        (lhs.as_nat() - rhs.as_nat()) as nat
    } else {
        (rhs.as_nat() - lhs.as_nat()) as nat
    }
}

} // verus!

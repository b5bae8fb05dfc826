//! The display state: the renderer's record of the latest snapshot per
//! category, and the dispatcher that routes an incoming snapshot into
//! its slot.

use vstd::prelude::*;

verus! {

use crate::Category;
use crate::Measurements;
use crate::Snapshot;
use crate::sys_stats::cpu::CpuMeasurements;
use crate::sys_stats::disk::DiskStatMeasurements;
use crate::sys_stats::memory::MemoryMeasurments;
use crate::sys_stats::nvidia_gpu::NvidiaGpuMeasurements;
use crate::sys_stats::socket::SocketStatMeasurements;

/// One slot per category, holding the most recently dispatched snapshot
/// of that category, or the category's empty default before the first
/// arrival.
pub struct UIMeasurements {
    pub ui_cpu_data: CpuMeasurements,
    pub ui_memory_data: MemoryMeasurments,
    pub ui_disk_data: DiskStatMeasurements,
    pub ui_socket_data: SocketStatMeasurements,
    pub ui_nvidia_gpu_data: NvidiaGpuMeasurements,
}

impl UIMeasurements {
    pub fn ui_cpu_data(&self) -> (v: &CpuMeasurements)
        ensures
            *v == self.ui_cpu_data,
    {
        &self.ui_cpu_data
    }

    pub fn ui_memory_data(&self) -> (v: &MemoryMeasurments)
        ensures
            *v == self.ui_memory_data,
    {
        &self.ui_memory_data
    }

    pub fn ui_disk_data(&self) -> (v: &DiskStatMeasurements)
        ensures
            *v == self.ui_disk_data,
    {
        &self.ui_disk_data
    }

    pub fn ui_socket_data(&self) -> (v: &SocketStatMeasurements)
        ensures
            *v == self.ui_socket_data,
    {
        &self.ui_socket_data
    }

    pub fn ui_nvidia_gpu_data(&self) -> (v: &NvidiaGpuMeasurements)
        ensures
            *v == self.ui_nvidia_gpu_data,
    {
        &self.ui_nvidia_gpu_data
    }

    /// Routes a snapshot into the slot of its category, replacing that
    /// slot whole and touching no other.
    pub fn dispatch(&mut self, s: Snapshot)
        ensures
            *final(self) == spec_dispatch(*old(self), s),
    {
        match s {
            Snapshot::Cpu(m) => {
                self.ui_cpu_data = m;
            },
            Snapshot::Memory(m) => {
                self.ui_memory_data = m;
            },
            Snapshot::Disk(m) => {
                self.ui_disk_data = m;
            },
            Snapshot::Socket(m) => {
                self.ui_socket_data = m;
            },
            Snapshot::Gpu(m) => {
                self.ui_nvidia_gpu_data = m;
            },
        }
    }
}

impl Default for UIMeasurements {
    /// All slots at their category's empty default.
    fn default() -> (r: Self)
        ensures
            r.ui_cpu_data@ == Seq::<crate::sys_stats::cpu::CpuTimeView>::empty(),
            r.ui_memory_data == (MemoryMeasurments { mem_total: 0, mem_free: 0, mem_avail: 0 }),
            r.ui_disk_data@ == Seq::<crate::sys_stats::disk::SdView>::empty(),
            r.ui_socket_data == (SocketStatMeasurements {
                tcp_inuse: 0,
                udp_inuse: 0,
                udp_lite_inuse: 0,
            }),
            r.ui_nvidia_gpu_data@ == crate::sys_stats::nvidia_gpu::spec_gpu_default(),
    {
        let ui_cpu_data = CpuMeasurements::default();
        let ui_memory_data = MemoryMeasurments::default();
        let ui_disk_data = DiskStatMeasurements::default();
        let ui_socket_data = SocketStatMeasurements::default();
        let ui_nvidia_gpu_data = NvidiaGpuMeasurements::default();
        Self { ui_cpu_data, ui_memory_data, ui_disk_data, ui_socket_data, ui_nvidia_gpu_data }
    }
}

/// The dispatcher as a function: the incoming snapshot's category
/// decides the one slot that is replaced.
pub open spec fn spec_dispatch(st: UIMeasurements, s: Snapshot) -> UIMeasurements {
    match s {
        Snapshot::Cpu(m) => UIMeasurements { ui_cpu_data: m, ..st },
        Snapshot::Memory(m) => UIMeasurements { ui_memory_data: m, ..st },
        Snapshot::Disk(m) => UIMeasurements { ui_disk_data: m, ..st },
        Snapshot::Socket(m) => UIMeasurements { ui_socket_data: m, ..st },
        Snapshot::Gpu(m) => UIMeasurements { ui_nvidia_gpu_data: m, ..st },
    }
}

/// The slot of category `c` holds the same value in `a` and `b`.
pub open spec fn slot_unchanged(a: UIMeasurements, b: UIMeasurements, c: Category) -> bool {
    match c {
        Category::Cpu => a.ui_cpu_data == b.ui_cpu_data,
        Category::Memory => a.ui_memory_data == b.ui_memory_data,
        Category::Disk => a.ui_disk_data == b.ui_disk_data,
        Category::Socket => a.ui_socket_data == b.ui_socket_data,
        Category::Gpu => a.ui_nvidia_gpu_data == b.ui_nvidia_gpu_data,
    }
}

/// The slot of `s`'s own category holds exactly `s`'s payload.
pub open spec fn slot_holds(st: UIMeasurements, s: Snapshot) -> bool {
    match s {
        Snapshot::Cpu(m) => st.ui_cpu_data == m,
        Snapshot::Memory(m) => st.ui_memory_data == m,
        Snapshot::Disk(m) => st.ui_disk_data == m,
        Snapshot::Socket(m) => st.ui_socket_data == m,
        Snapshot::Gpu(m) => st.ui_nvidia_gpu_data == m,
    }
}

/// Slot isolation: dispatching a snapshot fills exactly the slot of its
/// own category and leaves every other slot unchanged.
pub proof fn lemma_dispatch_slot_isolation(st: UIMeasurements, s: Snapshot, c: Category)
    ensures
        slot_holds(spec_dispatch(st, s), s),
        c != s.spec_category() ==> slot_unchanged(st, spec_dispatch(st, s), c),
{
}

/// Dispatching a whole sequence of snapshots, in arrival order.
pub open spec fn spec_dispatch_all(st: UIMeasurements, snaps: Seq<Snapshot>) -> UIMeasurements
    decreases snaps.len(),
{
    if snaps.len() == 0 {
        st
    } else {
        spec_dispatch(spec_dispatch_all(st, snaps.drop_last()), snaps.last())
    }
}

/// The last snapshot of category `c` in `snaps`, if any arrived.
pub open spec fn last_of_category(snaps: Seq<Snapshot>, c: Category) -> Option<Snapshot>
    decreases snaps.len(),
{
    if snaps.len() == 0 {
        None
    } else if snaps.last().spec_category() == c {
        Some(snaps.last())
    } else {
        last_of_category(snaps.drop_last(), c)
    }
}

/// A snapshot found by `last_of_category` is of that category.
proof fn lemma_last_of_category_matches(snaps: Seq<Snapshot>, c: Category)
    ensures
        last_of_category(snaps, c) matches Some(s) ==> s.spec_category() == c,
    decreases snaps.len(),
{
    if snaps.len() > 0 && snaps.last().spec_category() != c {
        lemma_last_of_category_matches(snaps.drop_last(), c);
    }
}

/// Last write wins: after dispatching any sequence of snapshots, each
/// category's slot holds the payload of the last snapshot of that
/// category, whatever arrived in between; a category that never
/// arrived keeps its starting value.
pub proof fn lemma_dispatch_all_last_write_wins(
    st: UIMeasurements,
    snaps: Seq<Snapshot>,
    c: Category,
)
    ensures
        match last_of_category(snaps, c) {
            Some(s) => slot_holds(spec_dispatch_all(st, snaps), s),
            None => slot_unchanged(st, spec_dispatch_all(st, snaps), c),
        },
    decreases snaps.len(),
{
    if snaps.len() == 0 {
    } else {
        let prev = spec_dispatch_all(st, snaps.drop_last());
        let s_last = snaps.last();
        if s_last.spec_category() == c {
            lemma_dispatch_slot_isolation(prev, s_last, c);
        } else {
            lemma_dispatch_all_last_write_wins(st, snaps.drop_last(), c);
            lemma_last_of_category_matches(snaps.drop_last(), c);
            lemma_dispatch_slot_isolation(prev, s_last, c);
        }
    }
}

} // verus!

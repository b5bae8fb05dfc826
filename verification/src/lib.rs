//! Core of a live, terminal-rendered resource dashboard.
//!
//! Background pollers sample host metrics (CPU, memory, disk, sockets, GPU)
//! from fixed-format text sources and stream immutable snapshots over one
//! bounded channel to a single renderer, which keeps the latest snapshot per
//! category and redraws until the user quits.  This crate holds the verified
//! core: the snapshot data model, the line parsers, the dispatch logic that
//! routes a snapshot into the display state, and the render-loop state
//! machine.  Reading the text sources and driving the terminal are left to
//! the embedding program.

use vstd::prelude::*;

pub mod channel;
pub mod sys_stats;
pub mod text;
pub mod ui;

verus! {

use crate::sys_stats::cpu::CpuMeasurements;
use crate::sys_stats::disk::DiskStatMeasurements;
use crate::sys_stats::memory::MemoryMeasurments;
use crate::sys_stats::nvidia_gpu::NvidiaGpuMeasurements;
use crate::sys_stats::socket::SocketStatMeasurements;

/// The closed set of metric categories, one per snapshot variant.
#[derive(Clone, Copy, PartialEq, Eq, Structural, Debug)]
pub enum Category {
    Cpu,
    Memory,
    Disk,
    Socket,
    Gpu,
}

/// Why a line of a metric source could not be turned into a value.
#[derive(Clone, Copy, PartialEq, Eq, Structural, Debug)]
pub enum ParseError {
    /// The line has fewer fields than the format requires.
    MissingField,
    /// A field that must be a number holds a non-digit character.
    NotNumeric,
    /// A numeric field does not fit in the target integer type.
    Overflow,
}

/// Why a reader could not produce a snapshot.
#[derive(Clone, Copy, PartialEq, Eq, Structural, Debug)]
pub enum ReadError {
    /// The backing source could not be opened or read.
    SourceUnavailable,
    /// A line of the source could not be understood.
    Parse(ParseError),
}

/// The capabilities every measurement record shares: knowing which
/// metric category it belongs to, and describing itself as displayable
/// text.
pub trait Measurements: Sized {
    /// The category this record reports on.
    spec fn spec_category(&self) -> Category;

    /// The category this record reports on.
    fn category(&self) -> (c: Category)
        ensures
            c == self.spec_category(),
    ;

    /// The record as panel text; each implementation pins the exact
    /// wording.
    fn info_text(&self) -> String;
}

/// One immutable reading from a metric category: the closed set of
/// variants that travels from the pollers to the renderer.
#[derive(Clone, Debug)]
pub enum Snapshot {
    Cpu(CpuMeasurements),
    Memory(MemoryMeasurments),
    Disk(DiskStatMeasurements),
    Socket(SocketStatMeasurements),
    Gpu(NvidiaGpuMeasurements),
}

/// A snapshot's panel text: its payload's.
pub open spec fn spec_snapshot_text(s: &Snapshot) -> Seq<char> {
    match s {
        Snapshot::Cpu(m) => crate::sys_stats::cpu::spec_cpu_text(m@),
        Snapshot::Memory(m) => crate::sys_stats::memory::spec_memory_text(*m),
        Snapshot::Disk(m) => crate::sys_stats::disk::spec_disk_text(m@),
        Snapshot::Socket(m) => crate::sys_stats::socket::spec_socket_text(*m),
        Snapshot::Gpu(m) => crate::sys_stats::nvidia_gpu::spec_gpu_text(m@),
    }
}

impl Measurements for Snapshot {
    open spec fn spec_category(&self) -> Category {
        match self {
            Snapshot::Cpu(_) => Category::Cpu,
            Snapshot::Memory(_) => Category::Memory,
            Snapshot::Disk(_) => Category::Disk,
            Snapshot::Socket(_) => Category::Socket,
            Snapshot::Gpu(_) => Category::Gpu,
        }
    }

    fn category(&self) -> (c: Category) {
        match self {
            Snapshot::Cpu(_) => Category::Cpu,
            Snapshot::Memory(_) => Category::Memory,
            Snapshot::Disk(_) => Category::Disk,
            Snapshot::Socket(_) => Category::Socket,
            Snapshot::Gpu(_) => Category::Gpu,
        }
    }

    fn info_text(&self) -> (s: String)
        ensures
            s@ == spec_snapshot_text(self),
    {
        match self {
            Snapshot::Cpu(m) => m.info_text(),
            Snapshot::Memory(m) => m.info_text(),
            Snapshot::Disk(m) => m.info_text(),
            Snapshot::Socket(m) => m.info_text(),
            Snapshot::Gpu(m) => m.info_text(),
        }
    }
}

} // verus!

//! Process records: one immutable snapshot of one operating-system process.
//!
//! A record is plain data. The controller never changes one in place; it
//! replaces the whole table when a fresh snapshot arrives.

use sysinfo::ProcessStatus;
use vstd::prelude::*;

verus! {

/// Identifier of a process. It is the join key between a selection and a
/// fresh snapshot: positions change with every sort, identifiers do not.
#[derive(Clone, Copy, Debug, PartialEq, Eq, Hash, Structural)]
pub struct Pid(pub u32);

impl Pid {
    pub fn from_u32(v: u32) -> (pid: Pid)
        ensures
            pid == Pid(v),
    {
        Pid(v)
    }

    pub fn as_u32(self) -> (v: u32)
        ensures
            v == self.0,
    {
        self.0
    }
}

/// A CPU reading, kept as the bit pattern of an IEEE-754 single-precision
/// number: one sign bit, then eight exponent bits and twenty-three fraction
/// bits that together form the magnitude.
///
/// Among readings that are numbers, a larger magnitude means a larger
/// absolute value, so the order of the readings is the order of their signed
/// magnitudes. A pattern whose magnitude lies above that of infinity is not a
/// number; it stands for "reading unavailable" and is in order with nothing.
#[derive(Clone, Copy, Debug, PartialEq, Eq, Hash, Structural)]
pub struct CpuUsage {
    pub bits: u32,
}

/// The sign bit of a reading.
pub const SIGN_BIT: u32 = 0x8000_0000;

/// The magnitude of infinity: all exponent bits set, no fraction bit set.
pub const INFINITY_MAGNITUDE: u32 = 0x7f80_0000;

impl CpuUsage {
    /// The bits without the sign.
    pub open spec fn magnitude(self) -> int {
        if self.bits >= SIGN_BIT {
            self.bits - SIGN_BIT
        } else {
            self.bits as int
        }
    }

    /// Whether the reading is not a number.
    pub open spec fn unavailable(self) -> bool {
        self.magnitude() > INFINITY_MAGNITUDE
    }

    /// The signed magnitude. Both zeros have rank 0.
    pub open spec fn rank(self) -> int {
        if self.bits >= SIGN_BIT {
            -self.magnitude()
        } else {
            self.magnitude()
        }
    }

    /// Strictly smaller, as numbers. False as soon as one side is unavailable.
    pub open spec fn below(self, other: CpuUsage) -> bool {
        !self.unavailable() && !other.unavailable() && self.rank() < other.rank()
    }

    pub fn from_bits(bits: u32) -> (usage: CpuUsage)
        ensures
            usage.bits == bits,
    {
        CpuUsage { bits }
    }

    pub fn to_bits(self) -> (bits: u32)
        ensures
            bits == self.bits,
    {
        self.bits
    }

    pub fn is_nan(self) -> (nan: bool)
        ensures
            nan == self.unavailable(),
    {
        let magnitude: u32 = if self.bits >= SIGN_BIT {
            self.bits - SIGN_BIT
        } else {
            self.bits
        };
        magnitude > INFINITY_MAGNITUDE
    }

    fn signed_magnitude(self) -> (rank: i64)
        ensures
            rank == self.rank(),
    {
        if self.bits >= SIGN_BIT {
            let magnitude: u32 = self.bits - SIGN_BIT;
            -(magnitude as i64)
        } else {
            self.bits as i64
        }
    }

    pub fn is_below(self, other: CpuUsage) -> (below: bool)
        ensures
            below == self.below(other),
    {
        !self.is_nan() && !other.is_nan() && self.signed_magnitude() < other.signed_magnitude()
    }
}

/// Bytes moved to and from disk by one process.
#[derive(Clone, Copy, Debug, PartialEq, Eq, Structural)]
pub struct DiskUsage {
    /// Bytes written over the life of the process.
    pub total_written_bytes: u64,
    /// Bytes written since the last refresh.
    pub written_bytes: u64,
    /// Bytes read over the life of the process.
    pub total_read_bytes: u64,
    /// Bytes read since the last refresh.
    pub read_bytes: u64,
}

impl Default for DiskUsage {
    fn default() -> (usage: DiskUsage)
        ensures
            usage == (DiskUsage {
                total_written_bytes: 0,
                written_bytes: 0,
                total_read_bytes: 0,
                read_bytes: 0,
            }),
    {
        DiskUsage { total_written_bytes: 0, written_bytes: 0, total_read_bytes: 0, read_bytes: 0 }
    }
}

/// Run state of a process, as `sysinfo` reports it. The controller carries
/// the value through and never looks inside.
#[verifier::external_type_specification]
#[verifier::external_body]
pub struct ExProcessStatus(sysinfo::ProcessStatus);

/// One process at the time of a snapshot.
#[derive(Debug)]
pub struct ProcessInfo {
    /// The executable's name as the host gave it: raw bytes, not
    /// necessarily UTF-8.
    pub name: Vec<u8>,
    pub parent_pid: Option<Pid>,
    pub pid: Pid,
    /// Share of one core in use.
    pub cpu_usage: CpuUsage,
    /// Resident bytes.
    pub memory_usage: u64,
    /// Seconds since the process started.
    pub run_time: u64,
    pub status: ProcessStatus,
    /// CPU time consumed over the life of the process.
    pub acc_cpu_time: u64,
    pub disk_usage: DiskUsage,
}

/// What a [`ProcessInfo`] holds, as a mathematical value.
pub struct ProcessRecord {
    pub name: Seq<u8>,
    pub parent_pid: Option<Pid>,
    pub pid: Pid,
    pub cpu_usage: CpuUsage,
    pub memory_usage: u64,
    pub run_time: u64,
    pub status: ProcessStatus,
    pub acc_cpu_time: u64,
    pub disk_usage: DiskUsage,
}

impl View for ProcessInfo {
    type V = ProcessRecord;

    open spec fn view(&self) -> ProcessRecord {
        ProcessRecord {
            name: self.name@,
            parent_pid: self.parent_pid,
            pid: self.pid,
            cpu_usage: self.cpu_usage,
            memory_usage: self.memory_usage,
            run_time: self.run_time,
            status: self.status,
            acc_cpu_time: self.acc_cpu_time,
            disk_usage: self.disk_usage,
        }
    }
}

impl DeepView for ProcessInfo {
    type V = ProcessRecord;

    open spec fn deep_view(&self) -> ProcessRecord {
        self@
    }
}

impl Clone for ProcessInfo {
    fn clone(&self) -> (copy: ProcessInfo)
        ensures
            copy@ == self@,
    {
        ProcessInfo {
            name: self.name.clone(),
            parent_pid: self.parent_pid,
            pid: self.pid,
            cpu_usage: self.cpu_usage,
            memory_usage: self.memory_usage,
            run_time: self.run_time,
            status: self.status,
            acc_cpu_time: self.acc_cpu_time,
            disk_usage: self.disk_usage,
        }
    }
}

impl ProcessInfo {
    pub fn new(
        name: Vec<u8>,
        parent_pid: Option<Pid>,
        pid: Pid,
        cpu_usage: CpuUsage,
        memory_usage: u64,
        run_time: u64,
        status: ProcessStatus,
        acc_cpu_time: u64,
        disk_usage: DiskUsage,
    ) -> (process: ProcessInfo)
        ensures
            process@ == (ProcessRecord {
                name: name@,
                parent_pid,
                pid,
                cpu_usage,
                memory_usage,
                run_time,
                status,
                acc_cpu_time,
                disk_usage,
            }),
    {
        ProcessInfo {
            name,
            parent_pid,
            pid,
            cpu_usage,
            memory_usage,
            run_time,
            status,
            acc_cpu_time,
            disk_usage,
        }
    }
}

/// The records of a table, in table order.
pub open spec fn records(table: Seq<ProcessInfo>) -> Seq<ProcessRecord> {
    table.map_values(|p: ProcessInfo| p@)
}

} // verus!

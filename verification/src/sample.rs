//! The data model of one stats snapshot read from the container runtime.
//!
//! Every field mirrors what the runtime reports for one container at one
//! instant: cumulative CPU counters together with the runtime's own previous
//! reading, CFS throttling counters, per-operation block-I/O byte counters,
//! memory usage with the cgroup-v2 detail shape (the v1 shape is carried as an
//! opaque `Legacy` arm and never interpreted), per-interface network counters,
//! and thread counts.

use vstd::prelude::*;

verus! {

/// Cumulative CPU usage counters, in the runtime's tick unit (nanoseconds on
/// the common platform).
#[derive(Clone, Copy, Debug, PartialEq, Eq, Structural)]
pub struct CpuUsage {
    /// Total CPU time consumed.
    pub total: u64,
    /// CPU time consumed in user mode.
    pub user: u64,
    /// CPU time consumed in kernel mode.
    pub kernel: u64,
}

/// Cumulative CFS throttling counters.
#[derive(Clone, Copy, Debug, PartialEq, Eq, Structural)]
pub struct Throttling {
    /// Number of elapsed enforcement periods.
    pub periods: u64,
    /// Number of throttled periods.
    pub throttled_periods: u64,
    /// Total throttled time, in the runtime's tick unit.
    pub throttled_time: u64,
}

/// One CPU-family reading: usage counters plus throttling counters.
#[derive(Clone, Copy, Debug, PartialEq, Eq, Structural)]
pub struct CpuSample {
    pub usage: CpuUsage,
    pub throttling: Throttling,
}

/// The cgroup-v2 memory detail counters that the metrics mapping reads.
#[derive(Clone, Copy, Debug, PartialEq, Eq, Structural)]
pub struct MemoryDetail {
    /// Page cache / file-backed memory bytes.
    pub file: u64,
    /// Bytes of memory-mapped files.
    pub file_mapped: u64,
    /// Anonymous (RSS) memory bytes.
    pub anon: u64,
    /// Inactive file-backed memory bytes.
    pub inactive_file: u64,
    /// Cumulative minor page-fault count.
    pub pgfault: u64,
    /// Cumulative major page-fault count.
    pub pgmajfault: u64,
}

/// Which shape of memory detail a sample carries. The legacy (cgroup-v1)
/// shape is an explicit arm that short-circuits memory-detail emission; its
/// field mapping is a documented non-goal.
#[derive(Clone, Copy, Debug, PartialEq, Eq, Structural)]
pub enum MemoryDetailShape {
    /// The sample carries no detailed memory statistics.
    Absent,
    /// The sample carries the legacy (cgroup-v1) shape, which is unsupported.
    Legacy,
    /// The sample carries the modern (cgroup-v2) shape.
    V2(MemoryDetail),
}

/// The memory family of one sample.
#[derive(Clone, Copy, Debug, PartialEq, Eq, Structural)]
pub struct MemorySample {
    /// Total memory usage in bytes, when reported.
    pub usage: Option<u64>,
    /// Detailed counters, in whichever shape the runtime exposed.
    pub detail: MemoryDetailShape,
}

/// Cumulative counters of one network interface.
#[derive(Clone, Copy, Debug, PartialEq, Eq, Structural)]
pub struct NetCounters {
    pub rx_bytes: u64,
    pub rx_packets: u64,
    pub rx_errors: u64,
    pub rx_dropped: u64,
    pub tx_bytes: u64,
    pub tx_packets: u64,
    pub tx_errors: u64,
    pub tx_dropped: u64,
}

/// One named network interface with its counters.
#[derive(Debug)]
pub struct NetInterface {
    pub name: String,
    pub counters: NetCounters,
}

impl Clone for NetInterface {
    fn clone(&self) -> (r: Self)
        ensures
            r == *self,
    {
        NetInterface { name: self.name.clone(), counters: self.counters }
    }
}

/// Mathematical model of a [`NetInterface`].
pub ghost struct NetInterfaceModel {
    pub name: Seq<char>,
    pub counters: NetCounters,
}

impl View for NetInterface {
    type V = NetInterfaceModel;

    open spec fn view(&self) -> NetInterfaceModel {
        NetInterfaceModel { name: self.name@, counters: self.counters }
    }
}

impl DeepView for NetInterface {
    type V = NetInterfaceModel;

    open spec fn deep_view(&self) -> NetInterfaceModel {
        self.view()
    }
}

/// One per-operation block-I/O byte counter, keyed by an operation name such
/// as `read` or `write`.
#[derive(Debug)]
pub struct BlkioEntry {
    /// The operation kind this counter belongs to.
    pub op: String,
    /// The cumulative byte count for that operation.
    pub value: u64,
}

impl Clone for BlkioEntry {
    fn clone(&self) -> (r: Self)
        ensures
            r == *self,
    {
        BlkioEntry { op: self.op.clone(), value: self.value }
    }
}

/// Mathematical model of a [`BlkioEntry`].
pub ghost struct BlkioEntryModel {
    pub op: Seq<char>,
    pub value: u64,
}

impl View for BlkioEntry {
    type V = BlkioEntryModel;

    open spec fn view(&self) -> BlkioEntryModel {
        BlkioEntryModel { op: self.op@, value: self.value }
    }
}

impl DeepView for BlkioEntry {
    type V = BlkioEntryModel;

    open spec fn deep_view(&self) -> BlkioEntryModel {
        self.view()
    }
}

/// Copies one per-interface reading, for storing it as the next baseline.
pub fn clone_interfaces(interfaces: &Vec<NetInterface>) -> (r: Vec<NetInterface>)
    ensures
        r@ == interfaces@,
        r.deep_view() == interfaces.deep_view(),
{
    let mut out: Vec<NetInterface> = Vec::new();
    let mut i: usize = 0;
    while i < interfaces.len()
        invariant
            i <= interfaces.len(),
            out@ =~= interfaces@.take(i as int),
        decreases interfaces.len() - i,
    {
        out.push(interfaces[i].clone());
        i = i + 1;
    }
    proof {
        assert(out@ =~= interfaces@);
        assert(out.deep_view() =~= interfaces.deep_view());
    }
    out
}

/// Thread-count statistics of one sample.
#[derive(Clone, Copy, Debug, PartialEq, Eq, Structural)]
pub struct PidsSample {
    /// Current number of threads, when reported.
    pub current: Option<u64>,
    /// Thread limit, when reported.
    pub limit: Option<u64>,
}

/// One point-in-time stats snapshot for a container.
#[derive(Debug)]
pub struct StatSample {
    /// The current CPU-family reading.
    pub cpu: CpuSample,
    /// The runtime's own previous CPU-family reading, delivered inside the
    /// same snapshot.
    pub precpu: CpuSample,
    /// Per-operation block-I/O byte counters, when reported.
    pub blkio: Option<Vec<BlkioEntry>>,
    /// The memory family.
    pub memory: MemorySample,
    /// Per-interface network counters, when reported.
    pub networks: Option<Vec<NetInterface>>,
    /// Thread counts.
    pub pids: PidsSample,
}

/// Mathematical model of a [`StatSample`].
pub ghost struct StatSampleModel {
    pub cpu: CpuSample,
    pub precpu: CpuSample,
    pub blkio: Option<Seq<BlkioEntryModel>>,
    pub memory: MemorySample,
    pub networks: Option<Seq<NetInterfaceModel>>,
    pub pids: PidsSample,
}

impl View for StatSample {
    type V = StatSampleModel;

    open spec fn view(&self) -> StatSampleModel {
        StatSampleModel {
            cpu: self.cpu,
            precpu: self.precpu,
            blkio: self.blkio.deep_view(),
            memory: self.memory,
            networks: self.networks.deep_view(),
            pids: self.pids,
        }
    }
}

impl DeepView for StatSample {
    type V = StatSampleModel;

    open spec fn deep_view(&self) -> StatSampleModel {
        self.view()
    }
}

} // verus!

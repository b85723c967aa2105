//! The vocabulary of metric emissions: which instrument, which value, which
//! label set. A worker turns each incoming sample into a sequence of
//! [`MetricRecord`]s; the exporter edge outside this crate owns the actual
//! instruments and hands each record to the matching one.

use vstd::prelude::*;

verus! {

/// Every instrument a container worker can emit to, named after the
/// cAdvisor-style metrics schema.
#[derive(Clone, Copy, Debug, PartialEq, Eq, Structural)]
pub enum Instrument {
    CpuUsageSecondsTotal,
    CpuUserSecondsTotal,
    CpuSystemSecondsTotal,
    CpuCfsPeriodsTotal,
    CpuCfsThrottledPeriodsTotal,
    CpuCfsThrottledSecondsTotal,
    FsReadsBytesTotal,
    FsWritesBytesTotal,
    LastSeen,
    MemoryCache,
    MemoryFailuresTotal,
    MemoryMappedFile,
    MemoryRss,
    MemoryUsageBytes,
    MemoryWorkingSetBytes,
    NetworkReceiveBytesTotal,
    NetworkReceiveErrorsTotal,
    NetworkReceivePacketsDroppedTotal,
    NetworkReceivePacketsTotal,
    NetworkTransmitBytesTotal,
    NetworkTransmitErrorsTotal,
    NetworkTransmitPacketsDroppedTotal,
    NetworkTransmitPacketsTotal,
    StartTimeSeconds,
    Threads,
    ThreadsMax,
}

/// Whether an instrument is a cumulative counter (deltas are added) or a
/// gauge (values are recorded).
#[derive(Clone, Copy, Debug, PartialEq, Eq, Structural)]
pub enum MetricKind {
    Counter,
    Gauge,
}

/// The exported name of each instrument.
pub open spec fn spec_instrument_name(i: Instrument) -> Seq<char> {
    match i {
        Instrument::CpuUsageSecondsTotal => "container_cpu_usage_seconds_total"@,
        Instrument::CpuUserSecondsTotal => "container_cpu_user_seconds_total"@,
        Instrument::CpuSystemSecondsTotal => "container_cpu_system_seconds_total"@,
        Instrument::CpuCfsPeriodsTotal => "container_cpu_cfs_periods_total"@,
        Instrument::CpuCfsThrottledPeriodsTotal => "container_cpu_cfs_throttled_periods_total"@,
        Instrument::CpuCfsThrottledSecondsTotal => "container_cpu_cfs_throttled_seconds_total"@,
        Instrument::FsReadsBytesTotal => "container_fs_reads_bytes_total"@,
        Instrument::FsWritesBytesTotal => "container_fs_writes_bytes_total"@,
        Instrument::LastSeen => "container_last_seen"@,
        Instrument::MemoryCache => "container_memory_cache"@,
        Instrument::MemoryFailuresTotal => "container_memory_failures_total"@,
        Instrument::MemoryMappedFile => "container_memory_mapped_file"@,
        Instrument::MemoryRss => "container_memory_rss"@,
        Instrument::MemoryUsageBytes => "container_memory_usage_bytes"@,
        Instrument::MemoryWorkingSetBytes => "container_memory_working_set_bytes"@,
        Instrument::NetworkReceiveBytesTotal => "container_network_receive_bytes_total"@,
        Instrument::NetworkReceiveErrorsTotal => "container_network_receive_errors_total"@,
        Instrument::NetworkReceivePacketsDroppedTotal
            => "container_network_receive_packets_dropped_total"@,
        Instrument::NetworkReceivePacketsTotal => "container_network_receive_packets_total"@,
        Instrument::NetworkTransmitBytesTotal => "container_network_transmit_bytes_total"@,
        Instrument::NetworkTransmitErrorsTotal => "container_network_transmit_errors_total"@,
        Instrument::NetworkTransmitPacketsDroppedTotal
            => "container_network_transmit_packets_dropped_total"@,
        Instrument::NetworkTransmitPacketsTotal => "container_network_transmit_packets_total"@,
        Instrument::StartTimeSeconds => "container_start_time_seconds"@,
        Instrument::Threads => "container_threads"@,
        Instrument::ThreadsMax => "container_threads_max"@,
    }
}

/// Counters add deltas; gauges record the current value.
pub open spec fn spec_instrument_kind(i: Instrument) -> MetricKind {
    match i {
        Instrument::CpuUsageSecondsTotal => MetricKind::Counter,
        Instrument::CpuUserSecondsTotal => MetricKind::Counter,
        Instrument::CpuSystemSecondsTotal => MetricKind::Counter,
        Instrument::CpuCfsPeriodsTotal => MetricKind::Counter,
        Instrument::CpuCfsThrottledPeriodsTotal => MetricKind::Counter,
        Instrument::CpuCfsThrottledSecondsTotal => MetricKind::Counter,
        Instrument::FsReadsBytesTotal => MetricKind::Counter,
        Instrument::FsWritesBytesTotal => MetricKind::Counter,
        Instrument::LastSeen => MetricKind::Gauge,
        Instrument::MemoryCache => MetricKind::Gauge,
        Instrument::MemoryFailuresTotal => MetricKind::Counter,
        Instrument::MemoryMappedFile => MetricKind::Gauge,
        Instrument::MemoryRss => MetricKind::Gauge,
        Instrument::MemoryUsageBytes => MetricKind::Gauge,
        Instrument::MemoryWorkingSetBytes => MetricKind::Gauge,
        Instrument::NetworkReceiveBytesTotal => MetricKind::Counter,
        Instrument::NetworkReceiveErrorsTotal => MetricKind::Counter,
        Instrument::NetworkReceivePacketsDroppedTotal => MetricKind::Counter,
        Instrument::NetworkReceivePacketsTotal => MetricKind::Counter,
        Instrument::NetworkTransmitBytesTotal => MetricKind::Counter,
        Instrument::NetworkTransmitErrorsTotal => MetricKind::Counter,
        Instrument::NetworkTransmitPacketsDroppedTotal => MetricKind::Counter,
        Instrument::NetworkTransmitPacketsTotal => MetricKind::Counter,
        Instrument::StartTimeSeconds => MetricKind::Gauge,
        Instrument::Threads => MetricKind::Gauge,
        Instrument::ThreadsMax => MetricKind::Gauge,
    }
}

/// The instruments whose record value is a nanosecond duration that the
/// exporter edge divides by 1e9 to obtain seconds.
pub open spec fn spec_time_valued(i: Instrument) -> bool {
    match i {
        Instrument::CpuUsageSecondsTotal => true,
        Instrument::CpuUserSecondsTotal => true,
        Instrument::CpuSystemSecondsTotal => true,
        Instrument::CpuCfsThrottledSecondsTotal => true,
        _ => false,
    }
}

impl Instrument {
    /// The exported name of this instrument.
    pub fn name(&self) -> (r: &'static str)
        ensures
            r@ == spec_instrument_name(*self),
    {
        match self {
            Instrument::CpuUsageSecondsTotal => "container_cpu_usage_seconds_total",
            Instrument::CpuUserSecondsTotal => "container_cpu_user_seconds_total",
            Instrument::CpuSystemSecondsTotal => "container_cpu_system_seconds_total",
            Instrument::CpuCfsPeriodsTotal => "container_cpu_cfs_periods_total",
            Instrument::CpuCfsThrottledPeriodsTotal => "container_cpu_cfs_throttled_periods_total",
            Instrument::CpuCfsThrottledSecondsTotal => "container_cpu_cfs_throttled_seconds_total",
            Instrument::FsReadsBytesTotal => "container_fs_reads_bytes_total",
            Instrument::FsWritesBytesTotal => "container_fs_writes_bytes_total",
            Instrument::LastSeen => "container_last_seen",
            Instrument::MemoryCache => "container_memory_cache",
            Instrument::MemoryFailuresTotal => "container_memory_failures_total",
            Instrument::MemoryMappedFile => "container_memory_mapped_file",
            Instrument::MemoryRss => "container_memory_rss",
            Instrument::MemoryUsageBytes => "container_memory_usage_bytes",
            Instrument::MemoryWorkingSetBytes => "container_memory_working_set_bytes",
            Instrument::NetworkReceiveBytesTotal => "container_network_receive_bytes_total",
            Instrument::NetworkReceiveErrorsTotal => "container_network_receive_errors_total",
            Instrument::NetworkReceivePacketsDroppedTotal
                => "container_network_receive_packets_dropped_total",
            Instrument::NetworkReceivePacketsTotal => "container_network_receive_packets_total",
            Instrument::NetworkTransmitBytesTotal => "container_network_transmit_bytes_total",
            Instrument::NetworkTransmitErrorsTotal => "container_network_transmit_errors_total",
            Instrument::NetworkTransmitPacketsDroppedTotal
                => "container_network_transmit_packets_dropped_total",
            Instrument::NetworkTransmitPacketsTotal => "container_network_transmit_packets_total",
            Instrument::StartTimeSeconds => "container_start_time_seconds",
            Instrument::Threads => "container_threads",
            Instrument::ThreadsMax => "container_threads_max",
        }
    }

    /// Whether this instrument is a counter or a gauge.
    pub fn kind(&self) -> (r: MetricKind)
        ensures
            r == spec_instrument_kind(*self),
    {
        match self {
            Instrument::CpuUsageSecondsTotal => MetricKind::Counter,
            Instrument::CpuUserSecondsTotal => MetricKind::Counter,
            Instrument::CpuSystemSecondsTotal => MetricKind::Counter,
            Instrument::CpuCfsPeriodsTotal => MetricKind::Counter,
            Instrument::CpuCfsThrottledPeriodsTotal => MetricKind::Counter,
            Instrument::CpuCfsThrottledSecondsTotal => MetricKind::Counter,
            Instrument::FsReadsBytesTotal => MetricKind::Counter,
            Instrument::FsWritesBytesTotal => MetricKind::Counter,
            Instrument::LastSeen => MetricKind::Gauge,
            Instrument::MemoryCache => MetricKind::Gauge,
            Instrument::MemoryFailuresTotal => MetricKind::Counter,
            Instrument::MemoryMappedFile => MetricKind::Gauge,
            Instrument::MemoryRss => MetricKind::Gauge,
            Instrument::MemoryUsageBytes => MetricKind::Gauge,
            Instrument::MemoryWorkingSetBytes => MetricKind::Gauge,
            Instrument::NetworkReceiveBytesTotal => MetricKind::Counter,
            Instrument::NetworkReceiveErrorsTotal => MetricKind::Counter,
            Instrument::NetworkReceivePacketsDroppedTotal => MetricKind::Counter,
            Instrument::NetworkReceivePacketsTotal => MetricKind::Counter,
            Instrument::NetworkTransmitBytesTotal => MetricKind::Counter,
            Instrument::NetworkTransmitErrorsTotal => MetricKind::Counter,
            Instrument::NetworkTransmitPacketsDroppedTotal => MetricKind::Counter,
            Instrument::NetworkTransmitPacketsTotal => MetricKind::Counter,
            Instrument::StartTimeSeconds => MetricKind::Gauge,
            Instrument::Threads => MetricKind::Gauge,
            Instrument::ThreadsMax => MetricKind::Gauge,
        }
    }

    /// Whether this instrument's record value is a nanosecond duration.
    pub fn time_valued(&self) -> (r: bool)
        ensures
            r == spec_time_valued(*self),
    {
        match self {
            Instrument::CpuUsageSecondsTotal => true,
            Instrument::CpuUserSecondsTotal => true,
            Instrument::CpuSystemSecondsTotal => true,
            Instrument::CpuCfsThrottledSecondsTotal => true,
            _ => false,
        }
    }

    /// The declared unit of this instrument, when the schema gives one:
    /// seconds for the time-valued instruments and the start-time and
    /// throttled-seconds counters, bytes for the byte-valued ones.
    pub fn unit(&self) -> (r: Option<&'static str>)
        ensures
            match r {
                Some(u) => u@ == spec_instrument_unit(*self)->Some_0,
                None => spec_instrument_unit(*self) is None,
            },
            r is Some <==> spec_instrument_unit(*self) is Some,
    {
        match self {
            Instrument::CpuUsageSecondsTotal => Some("s"),
            Instrument::CpuUserSecondsTotal => Some("s"),
            Instrument::CpuSystemSecondsTotal => Some("s"),
            Instrument::CpuCfsThrottledSecondsTotal => Some("s"),
            Instrument::FsReadsBytesTotal => Some("By"),
            Instrument::FsWritesBytesTotal => Some("By"),
            Instrument::MemoryUsageBytes => Some("By"),
            Instrument::MemoryWorkingSetBytes => Some("By"),
            Instrument::NetworkReceiveBytesTotal => Some("By"),
            Instrument::NetworkTransmitBytesTotal => Some("By"),
            Instrument::StartTimeSeconds => Some("s"),
            _ => None,
        }
    }
}

/// The declared unit of each instrument, when the schema gives one.
pub open spec fn spec_instrument_unit(i: Instrument) -> Option<Seq<char>> {
    match i {
        Instrument::CpuUsageSecondsTotal => Some("s"@),
        Instrument::CpuUserSecondsTotal => Some("s"@),
        Instrument::CpuSystemSecondsTotal => Some("s"@),
        Instrument::CpuCfsThrottledSecondsTotal => Some("s"@),
        Instrument::FsReadsBytesTotal => Some("By"@),
        Instrument::FsWritesBytesTotal => Some("By"@),
        Instrument::MemoryUsageBytes => Some("By"@),
        Instrument::MemoryWorkingSetBytes => Some("By"@),
        Instrument::NetworkReceiveBytesTotal => Some("By"@),
        Instrument::NetworkTransmitBytesTotal => Some("By"@),
        Instrument::StartTimeSeconds => Some("s"@),
        _ => None,
    }
}

/// Which of a worker's fixed label sets a record carries. The four memory
/// variants extend the base set with a failure-type and scope pair; the
/// interface variant extends it with the interface-name label.
#[derive(Debug)]
pub enum LabelScope {
    /// The worker's shared label set.
    Base,
    /// Base plus `failure_type=pgfault, scope=container`.
    MemMinorContainer,
    /// Base plus `failure_type=pgfault, scope=hierarchy`.
    MemMinorHierarchy,
    /// Base plus `failure_type=pgmajfault, scope=container`.
    MemMajorContainer,
    /// Base plus `failure_type=pgmajfault, scope=hierarchy`.
    MemMajorHierarchy,
    /// Base plus `interface=<name>`.
    Interface(String),
}

/// Mathematical model of a [`LabelScope`].
pub ghost enum LabelScopeModel {
    Base,
    MemMinorContainer,
    MemMinorHierarchy,
    MemMajorContainer,
    MemMajorHierarchy,
    Interface(Seq<char>),
}

impl View for LabelScope {
    type V = LabelScopeModel;

    open spec fn view(&self) -> LabelScopeModel {
        match self {
            LabelScope::Base => LabelScopeModel::Base,
            LabelScope::MemMinorContainer => LabelScopeModel::MemMinorContainer,
            LabelScope::MemMinorHierarchy => LabelScopeModel::MemMinorHierarchy,
            LabelScope::MemMajorContainer => LabelScopeModel::MemMajorContainer,
            LabelScope::MemMajorHierarchy => LabelScopeModel::MemMajorHierarchy,
            LabelScope::Interface(name) => LabelScopeModel::Interface(name@),
        }
    }
}

impl DeepView for LabelScope {
    type V = LabelScopeModel;

    open spec fn deep_view(&self) -> LabelScopeModel {
        self.view()
    }
}

/// One metric emission: a value bound for one instrument under one of the
/// worker's label sets. Time-valued instruments carry nanoseconds.
#[derive(Debug)]
pub struct MetricRecord {
    pub instrument: Instrument,
    pub value: u64,
    pub scope: LabelScope,
}

/// Mathematical model of a [`MetricRecord`].
pub ghost struct MetricRecordModel {
    pub instrument: Instrument,
    pub value: u64,
    pub scope: LabelScopeModel,
}

impl View for MetricRecord {
    type V = MetricRecordModel;

    open spec fn view(&self) -> MetricRecordModel {
        MetricRecordModel {
            instrument: self.instrument,
            value: self.value,
            scope: self.scope@,
        }
    }
}

impl DeepView for MetricRecord {
    type V = MetricRecordModel;

    open spec fn deep_view(&self) -> MetricRecordModel {
        self.view()
    }
}

/// A record under the worker's base label set.
pub open spec fn base_record(instrument: Instrument, value: u64) -> MetricRecordModel {
    MetricRecordModel { instrument, value, scope: LabelScopeModel::Base }
}

} // verus!

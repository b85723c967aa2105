//! The per-container worker: seeded from the first successful sample, it
//! turns each later sample into a sequence of metric records, maintains the
//! family baselines, and decides when the container must be considered dead.
//!
//! The worker never touches the stream or the exporter itself: the caller
//! pulls samples, hands each one to [`WorkerState::process_sample`], forwards
//! the records it gets back, and stops on [`StepOutcome::Exit`].

use vstd::prelude::*;
use crate::blkio::{clone_entries, get_rw_totals, read_total, write_total};
use crate::delta::{clamp_to_u64, counter_delta, spec_counter_delta};
use crate::identity::{ContainerIdentity, ContainerIdentityModel};
use crate::labels::{build_label_sets, spec_label_sets, LabelSets, LabelSetsModel, StartError};
use crate::metrics::{
    base_record, Instrument, LabelScope, LabelScopeModel, MetricRecord, MetricRecordModel,
};
use crate::sample::{
    clone_interfaces, BlkioEntryModel, MemoryDetailShape, MemorySample, NetCounters,
    NetInterface, NetInterfaceModel, PidsSample, StatSample, StatSampleModel,
};

verus! {

/// What one processed sample means for the worker's lifecycle.
#[derive(Clone, Copy, Debug, PartialEq, Eq, Structural)]
pub enum StepOutcome {
    /// The container has exited (zero CPU total with a non-zero declared
    /// previous total): stop the worker; nothing was emitted.
    Exit,
    /// Both the current and the declared previous CPU totals read zero: an
    /// indeterminate sample, skipped without emitting or terminating.
    Skip,
    /// A normal sample: records were produced and baselines advanced.
    Emitted,
}

/// The state one worker owns: its fixed label sets, the identity's creation
/// time, and the per-family baselines that delta emission needs.
#[derive(Debug)]
pub struct WorkerState {
    /// The immutable label sets built at startup.
    pub labels: LabelSets,
    /// The container's creation time, for the start-time gauge.
    pub created: Option<i64>,
    /// The last block-I/O reading, the baseline for byte-count deltas.
    pub last_io: Option<Vec<crate::sample::BlkioEntry>>,
    /// The last memory reading, the baseline for page-fault deltas.
    pub last_mem: MemorySample,
    /// The last per-interface reading, the baseline for network deltas.
    pub last_net: Option<Vec<NetInterface>>,
    /// Whether the start-time gauge has been emitted already.
    pub start_emitted: bool,
}

/// Mathematical model of a [`WorkerState`].
pub ghost struct WorkerStateModel {
    pub labels: LabelSetsModel,
    pub created: Option<i64>,
    pub last_io: Option<Seq<BlkioEntryModel>>,
    pub last_mem: MemorySample,
    pub last_net: Option<Seq<NetInterfaceModel>>,
    pub start_emitted: bool,
}

impl View for WorkerState {
    type V = WorkerStateModel;

    open spec fn view(&self) -> WorkerStateModel {
        WorkerStateModel {
            labels: self.labels@,
            created: self.created,
            last_io: self.last_io.deep_view(),
            last_mem: self.last_mem,
            last_net: self.last_net.deep_view(),
            start_emitted: self.start_emitted,
        }
    }
}

/// The worker state right after seeding from the first successful sample:
/// baselines taken from that sample, nothing emitted yet.
pub open spec fn spec_seed(c: ContainerIdentityModel, s: StatSampleModel) -> WorkerStateModel {
    WorkerStateModel {
        labels: spec_label_sets(c),
        created: c.created,
        last_io: s.blkio,
        last_mem: s.memory,
        last_net: s.networks,
        start_emitted: false,
    }
}

/// The lifecycle decision for one sample: exit when the CPU total reads zero
/// while the sample's own declared previous total does not; skip when both
/// read zero; otherwise emit.
pub open spec fn spec_step_outcome(s: StatSampleModel) -> StepOutcome {
    if s.cpu.usage.total == 0 {
        if s.precpu.usage.total != 0 {
            StepOutcome::Exit
        } else {
            StepOutcome::Skip
        }
    } else {
        StepOutcome::Emitted
    }
}

/// The six CPU-family records of one sample, all deltas of the sample's
/// self-contained (current, previous) pair, clamped at zero.
pub open spec fn spec_cpu_records(s: StatSampleModel) -> Seq<MetricRecordModel> {
    seq![
        base_record(
            Instrument::CpuUsageSecondsTotal,
            spec_counter_delta(s.cpu.usage.total, s.precpu.usage.total),
        ),
        base_record(
            Instrument::CpuUserSecondsTotal,
            spec_counter_delta(s.cpu.usage.user, s.precpu.usage.user),
        ),
        base_record(
            Instrument::CpuSystemSecondsTotal,
            spec_counter_delta(s.cpu.usage.kernel, s.precpu.usage.kernel),
        ),
        base_record(
            Instrument::CpuCfsPeriodsTotal,
            spec_counter_delta(s.cpu.throttling.periods, s.precpu.throttling.periods),
        ),
        base_record(
            Instrument::CpuCfsThrottledPeriodsTotal,
            spec_counter_delta(
                s.cpu.throttling.throttled_periods,
                s.precpu.throttling.throttled_periods,
            ),
        ),
        base_record(
            Instrument::CpuCfsThrottledSecondsTotal,
            spec_counter_delta(s.cpu.throttling.throttled_time, s.precpu.throttling.throttled_time),
        ),
    ]
}

/// The block-I/O records of one sample: read and write byte deltas against
/// the stored baseline, present only when both the sample carries counters
/// and a baseline exists.
pub open spec fn spec_blkio_records(
    last_io: Option<Seq<BlkioEntryModel>>,
    cur: Option<Seq<BlkioEntryModel>>,
) -> Seq<MetricRecordModel> {
    match (last_io, cur) {
        (Some(last), Some(c)) => seq![
            base_record(
                Instrument::FsReadsBytesTotal,
                spec_counter_delta(clamp_to_u64(read_total(c)), clamp_to_u64(read_total(last))),
            ),
            base_record(
                Instrument::FsWritesBytesTotal,
                spec_counter_delta(clamp_to_u64(write_total(c)), clamp_to_u64(write_total(last))),
            ),
        ],
        _ => Seq::empty(),
    }
}

/// The four page-fault delta records, one per derived label set: minor
/// faults under the container and hierarchy scopes, then major faults under
/// both.
pub open spec fn spec_failure_records(
    pgfault_delta: u64,
    pgmajfault_delta: u64,
) -> Seq<MetricRecordModel> {
    seq![
        MetricRecordModel {
            instrument: Instrument::MemoryFailuresTotal,
            value: pgfault_delta,
            scope: LabelScopeModel::MemMinorContainer,
        },
        MetricRecordModel {
            instrument: Instrument::MemoryFailuresTotal,
            value: pgfault_delta,
            scope: LabelScopeModel::MemMinorHierarchy,
        },
        MetricRecordModel {
            instrument: Instrument::MemoryFailuresTotal,
            value: pgmajfault_delta,
            scope: LabelScopeModel::MemMajorContainer,
        },
        MetricRecordModel {
            instrument: Instrument::MemoryFailuresTotal,
            value: pgmajfault_delta,
            scope: LabelScopeModel::MemMajorHierarchy,
        },
    ]
}

/// The memory-family records of one sample. Only the modern (cgroup-v2)
/// detail shape is emitted; the page-fault deltas additionally need a
/// baseline in the same shape. Working-set bytes are total usage minus
/// inactive-file bytes, clamped at zero.
pub open spec fn spec_memory_records(
    last: MemorySample,
    cur: MemorySample,
) -> Seq<MetricRecordModel> {
    match (cur.usage, cur.detail) {
        (Some(usage), MemoryDetailShape::V2(d)) => seq![
            base_record(Instrument::MemoryCache, d.file),
        ] + (match last.detail {
            MemoryDetailShape::V2(ld) => spec_failure_records(
                spec_counter_delta(d.pgfault, ld.pgfault),
                spec_counter_delta(d.pgmajfault, ld.pgmajfault),
            ),
            _ => Seq::empty(),
        }) + seq![
            base_record(Instrument::MemoryMappedFile, d.file_mapped),
            base_record(Instrument::MemoryRss, d.anon),
            base_record(Instrument::MemoryUsageBytes, usage),
            base_record(
                Instrument::MemoryWorkingSetBytes,
                spec_counter_delta(usage, d.inactive_file),
            ),
        ],
        _ => Seq::empty(),
    }
}

/// The counters of the named interface in a stored baseline, when present.
pub open spec fn spec_lookup_net(
    last: Seq<NetInterfaceModel>,
    name: Seq<char>,
) -> Option<NetCounters>
    decreases last.len(),
{
    if last.len() == 0 {
        None
    } else if last[0].name == name {
        Some(last[0].counters)
    } else {
        spec_lookup_net(last.drop_first(), name)
    }
}

/// The eight per-interface delta records for one interface present in both
/// the current sample and the baseline.
pub open spec fn spec_iface_records(
    name: Seq<char>,
    cur: NetCounters,
    last: NetCounters,
) -> Seq<MetricRecordModel> {
    seq![
        MetricRecordModel {
            instrument: Instrument::NetworkReceiveBytesTotal,
            value: spec_counter_delta(cur.rx_bytes, last.rx_bytes),
            scope: LabelScopeModel::Interface(name),
        },
        MetricRecordModel {
            instrument: Instrument::NetworkTransmitBytesTotal,
            value: spec_counter_delta(cur.tx_bytes, last.tx_bytes),
            scope: LabelScopeModel::Interface(name),
        },
        MetricRecordModel {
            instrument: Instrument::NetworkReceiveErrorsTotal,
            value: spec_counter_delta(cur.rx_errors, last.rx_errors),
            scope: LabelScopeModel::Interface(name),
        },
        MetricRecordModel {
            instrument: Instrument::NetworkTransmitErrorsTotal,
            value: spec_counter_delta(cur.tx_errors, last.tx_errors),
            scope: LabelScopeModel::Interface(name),
        },
        MetricRecordModel {
            instrument: Instrument::NetworkReceivePacketsDroppedTotal,
            value: spec_counter_delta(cur.rx_dropped, last.rx_dropped),
            scope: LabelScopeModel::Interface(name),
        },
        MetricRecordModel {
            instrument: Instrument::NetworkTransmitPacketsDroppedTotal,
            value: spec_counter_delta(cur.tx_dropped, last.tx_dropped),
            scope: LabelScopeModel::Interface(name),
        },
        MetricRecordModel {
            instrument: Instrument::NetworkReceivePacketsTotal,
            value: spec_counter_delta(cur.rx_packets, last.rx_packets),
            scope: LabelScopeModel::Interface(name),
        },
        MetricRecordModel {
            instrument: Instrument::NetworkTransmitPacketsTotal,
            value: spec_counter_delta(cur.tx_packets, last.tx_packets),
            scope: LabelScopeModel::Interface(name),
        },
    ]
}

/// The network records over a current interface list and a baseline list, in
/// the order the current list reports the interfaces. An interface without a
/// baseline entry contributes nothing this tick.
pub open spec fn spec_net_records_list(
    last: Seq<NetInterfaceModel>,
    cur: Seq<NetInterfaceModel>,
) -> Seq<MetricRecordModel>
    decreases cur.len(),
{
    if cur.len() == 0 {
        Seq::empty()
    } else {
        spec_net_records_list(last, cur.drop_last()) + (match spec_lookup_net(
            last,
            cur.last().name,
        ) {
            Some(lc) => spec_iface_records(cur.last().name, cur.last().counters, lc),
            None => Seq::empty(),
        })
    }
}

/// The network records of one sample: present only when both the sample
/// carries interfaces and a baseline exists.
pub open spec fn spec_net_records(
    last: Option<Seq<NetInterfaceModel>>,
    cur: Option<Seq<NetInterfaceModel>>,
) -> Seq<MetricRecordModel> {
    match (last, cur) {
        (Some(l), Some(c)) => spec_net_records_list(l, c),
        _ => Seq::empty(),
    }
}

/// The thread-count gauges of one sample, each present exactly when the
/// sample reports it.
pub open spec fn spec_pids_records(p: PidsSample) -> Seq<MetricRecordModel> {
    (match p.current {
        Some(v) => seq![base_record(Instrument::Threads, v)],
        None => Seq::empty(),
    }) + (match p.limit {
        Some(v) => seq![base_record(Instrument::ThreadsMax, v)],
        None => Seq::empty(),
    })
}

/// The start-time gauge: emitted once per worker, on the first emitting
/// sample, when the listing reported a non-negative creation time.
pub open spec fn spec_start_records(st: WorkerStateModel) -> Seq<MetricRecordModel> {
    if !st.start_emitted && (st.created matches Some(c) && c >= 0) {
        seq![base_record(Instrument::StartTimeSeconds, st.created->Some_0 as u64)]
    } else {
        Seq::empty()
    }
}

/// Everything one sample makes the worker emit, in emission order: the CPU
/// family, block I/O, the last-seen gauge, the memory family, the network
/// family, thread counts, and the start-time gauge. An exited or skipped
/// sample emits nothing.
pub open spec fn spec_step_records(
    st: WorkerStateModel,
    s: StatSampleModel,
    now_secs: u64,
) -> Seq<MetricRecordModel> {
    if spec_step_outcome(s) is Emitted {
        spec_cpu_records(s) + spec_blkio_records(st.last_io, s.blkio) + seq![
            base_record(Instrument::LastSeen, now_secs),
        ] + spec_memory_records(st.last_mem, s.memory) + spec_net_records(st.last_net, s.networks)
            + spec_pids_records(s.pids) + spec_start_records(st)
    } else {
        Seq::empty()
    }
}

/// How one sample advances the worker state: an emitting sample replaces the
/// memory and network baselines with the sample's readings (even absent
/// ones), replaces the block-I/O baseline only when the sample carries
/// counters, and marks the start-time gauge emitted; any other sample leaves
/// the state unchanged.
pub open spec fn spec_step_state(st: WorkerStateModel, s: StatSampleModel) -> WorkerStateModel {
    if spec_step_outcome(s) is Emitted {
        WorkerStateModel {
            labels: st.labels,
            created: st.created,
            last_io: if s.blkio is Some {
                s.blkio
            } else {
                st.last_io
            },
            last_mem: s.memory,
            last_net: s.networks,
            start_emitted: st.start_emitted || (st.created matches Some(c) && c >= 0),
        }
    } else {
        st
    }
}

/// Exit detection: a sample whose current CPU total reads zero while its own
/// declared previous total does not marks the container as exited — the
/// worker stops, emits nothing, and leaves its state untouched.
pub proof fn lemma_exit_detection(st: WorkerStateModel, s: StatSampleModel, now_secs: u64)
    requires
        s.cpu.usage.total == 0,
        s.precpu.usage.total != 0,
    ensures
        spec_step_outcome(s) is Exit,
        spec_step_records(st, s, now_secs) == Seq::<MetricRecordModel>::empty(),
        spec_step_state(st, s) == st,
{
}

/// Two consecutive all-zero CPU readings are indeterminate: the worker skips
/// the sample — nothing is emitted, no baseline moves, and the worker keeps
/// running, awaiting real data or external cancellation.
pub proof fn lemma_zero_zero_skips(st: WorkerStateModel, s: StatSampleModel, now_secs: u64)
    requires
        s.cpu.usage.total == 0,
        s.precpu.usage.total == 0,
    ensures
        spec_step_outcome(s) is Skip,
        spec_step_records(st, s, now_secs) == Seq::<MetricRecordModel>::empty(),
        spec_step_state(st, s) == st,
{
}

/// The instruments whose records are deltas against a worker-held baseline:
/// block-I/O byte counters, memory page-fault counters, and the per-interface
/// network counters.
pub open spec fn spec_baseline_delta_instrument(i: Instrument) -> bool {
    match i {
        Instrument::FsReadsBytesTotal => true,
        Instrument::FsWritesBytesTotal => true,
        Instrument::MemoryFailuresTotal => true,
        Instrument::NetworkReceiveBytesTotal => true,
        Instrument::NetworkReceiveErrorsTotal => true,
        Instrument::NetworkReceivePacketsDroppedTotal => true,
        Instrument::NetworkReceivePacketsTotal => true,
        Instrument::NetworkTransmitBytesTotal => true,
        Instrument::NetworkTransmitErrorsTotal => true,
        Instrument::NetworkTransmitPacketsDroppedTotal => true,
        Instrument::NetworkTransmitPacketsTotal => true,
        _ => false,
    }
}

/// No record of the sequence belongs to a baseline-gated delta family.
pub open spec fn spec_no_baseline_deltas(records: Seq<MetricRecordModel>) -> bool {
    forall|i: int|
        0 <= i < records.len() ==> !spec_baseline_delta_instrument(
            #[trigger] records[i].instrument,
        )
}

proof fn lemma_no_baseline_deltas_concat(a: Seq<MetricRecordModel>, b: Seq<MetricRecordModel>)
    requires
        spec_no_baseline_deltas(a),
        spec_no_baseline_deltas(b),
    ensures
        spec_no_baseline_deltas(a + b),
{
    assert forall|i: int|
        0 <= i < (a + b).len() implies !spec_baseline_delta_instrument(
        #[trigger] (a + b)[i].instrument,
    ) by {
        if i < a.len() {
            assert((a + b)[i] == a[i]);
        } else {
            assert((a + b)[i] == b[i - a.len()]);
        }
    }
}

/// A worker whose baselines are still empty — no stored block-I/O reading,
/// no cgroup-v2 memory detail, no network reading, as right after seeding
/// from a sample that carried none of them — emits no block-I/O, memory
/// page-fault, or network delta for any sample: the first comparison point
/// only establishes the baselines, and deltas appear from the next sample on.
pub proof fn lemma_fresh_baselines_emit_no_deltas(
    st: WorkerStateModel,
    s: StatSampleModel,
    now_secs: u64,
)
    requires
        st.last_io is None,
        !(st.last_mem.detail is V2),
        st.last_net is None,
    ensures
        spec_no_baseline_deltas(spec_step_records(st, s, now_secs)),
{
    if spec_step_outcome(s) is Emitted {
        let cpu = spec_cpu_records(s);
        let blk = spec_blkio_records(st.last_io, s.blkio);
        let seen = seq![base_record(Instrument::LastSeen, now_secs)];
        let mem = spec_memory_records(st.last_mem, s.memory);
        let net = spec_net_records(st.last_net, s.networks);
        let pids = spec_pids_records(s.pids);
        let start = spec_start_records(st);

        assert(spec_no_baseline_deltas(cpu));
        assert(blk =~= Seq::<MetricRecordModel>::empty());
        assert(net =~= Seq::<MetricRecordModel>::empty());
        match (s.memory.usage, s.memory.detail) {
            (Some(usage), MemoryDetailShape::V2(d)) => {
                assert(mem =~= seq![
                    base_record(Instrument::MemoryCache, d.file),
                    base_record(Instrument::MemoryMappedFile, d.file_mapped),
                    base_record(Instrument::MemoryRss, d.anon),
                    base_record(Instrument::MemoryUsageBytes, usage),
                    base_record(
                        Instrument::MemoryWorkingSetBytes,
                        spec_counter_delta(usage, d.inactive_file),
                    ),
                ]);
                assert(spec_no_baseline_deltas(mem));
            },
            _ => {
                assert(mem =~= Seq::<MetricRecordModel>::empty());
            },
        }
        assert(spec_no_baseline_deltas(pids));
        assert(spec_no_baseline_deltas(start));
        lemma_no_baseline_deltas_concat(cpu, blk);
        lemma_no_baseline_deltas_concat(cpu + blk, seen);
        lemma_no_baseline_deltas_concat(cpu + blk + seen, mem);
        lemma_no_baseline_deltas_concat(cpu + blk + seen + mem, net);
        lemma_no_baseline_deltas_concat(cpu + blk + seen + mem + net, pids);
        lemma_no_baseline_deltas_concat(cpu + blk + seen + mem + net + pids, start);
    }
}

/// The counters of the named interface in a stored baseline, when present.
fn lookup_net(last: &Vec<NetInterface>, name: &String) -> (r: Option<NetCounters>)
    ensures
        r == spec_lookup_net(last.deep_view(), name@),
{
    let mut j: usize = 0;
    proof {
        assert(last.deep_view().skip(0) =~= last.deep_view());
    }
    while j < last.len()
        invariant
            j <= last.len(),
            spec_lookup_net(last.deep_view(), name@) == spec_lookup_net(
                last.deep_view().skip(j as int),
                name@,
            ),
        decreases last.len() - j,
    {
        let entry = &last[j];
        proof {
            assert(last.deep_view().skip(j as int)[0] == entry.deep_view());
            assert(last.deep_view().skip(j as int).drop_first() =~= last.deep_view().skip(j + 1));
        }
        if entry.name == *name {
            return Some(entry.counters);
        }
        j = j + 1;
    }
    proof {
        assert(last.deep_view().skip(last.len() as int) =~= Seq::<NetInterfaceModel>::empty());
    }
    None
}

impl WorkerState {
    /// Builds a worker from a listing entry and the first successful sample:
    /// the label sets are fixed, every family baseline is taken from that
    /// sample, and nothing is emitted yet. Fails exactly when the identity
    /// carries neither an image name nor an image id.
    pub fn seed_worker(c: &ContainerIdentity, first: &StatSample) -> (r: Result<
        WorkerState,
        StartError,
    >)
        requires
            c@.id is Some,
        ensures
            match r {
                Ok(w) => (c@.image is Some || c@.image_id is Some) && w@ == spec_seed(c@, first@),
                Err(e) => e == StartError::MissingImage && c@.image is None && c@.image_id is None,
            },
    {
        let labels = match build_label_sets(c) {
            Ok(ls) => ls,
            Err(e) => { return Err(e); },
        };
        let last_io = match &first.blkio {
            Some(v) => Some(clone_entries(v)),
            None => None,
        };
        let last_net = match &first.networks {
            Some(v) => Some(clone_interfaces(v)),
            None => None,
        };
        Ok(WorkerState {
            labels,
            created: c.created,
            last_io,
            last_mem: first.memory,
            last_net,
            start_emitted: false,
        })
    }

    /// Processes one sample: decides the lifecycle outcome, produces exactly
    /// the records of [`spec_step_records`], and advances the baselines as
    /// [`spec_step_state`] says.
    #[verifier::rlimit(60)]
    pub fn process_sample(&mut self, sample: &StatSample, now_secs: u64) -> (r: (
        StepOutcome,
        Vec<MetricRecord>,
    ))
        ensures
            r.0 == spec_step_outcome(sample@),
            r.1.deep_view() == spec_step_records(old(self)@, sample@, now_secs),
            final(self)@ == spec_step_state(old(self)@, sample@),
    {
        let ghost st0 = self@;
        let ghost sm = sample@;
        if sample.cpu.usage.total == 0 {
            if sample.precpu.usage.total != 0 {
                let out: Vec<MetricRecord> = Vec::new();
                proof {
                    assert(out.deep_view() =~= spec_step_records(st0, sm, now_secs));
                }
                return (StepOutcome::Exit, out);
            } else {
                let out: Vec<MetricRecord> = Vec::new();
                proof {
                    assert(out.deep_view() =~= spec_step_records(st0, sm, now_secs));
                }
                return (StepOutcome::Skip, out);
            }
        }

        let mut out: Vec<MetricRecord> = Vec::new();

        // CPU family: the sample carries its own previous reading.
        out.push(MetricRecord {
            instrument: Instrument::CpuUsageSecondsTotal,
            value: counter_delta(sample.cpu.usage.total, sample.precpu.usage.total),
            scope: LabelScope::Base,
        });
        out.push(MetricRecord {
            instrument: Instrument::CpuUserSecondsTotal,
            value: counter_delta(sample.cpu.usage.user, sample.precpu.usage.user),
            scope: LabelScope::Base,
        });
        out.push(MetricRecord {
            instrument: Instrument::CpuSystemSecondsTotal,
            value: counter_delta(sample.cpu.usage.kernel, sample.precpu.usage.kernel),
            scope: LabelScope::Base,
        });
        out.push(MetricRecord {
            instrument: Instrument::CpuCfsPeriodsTotal,
            value: counter_delta(sample.cpu.throttling.periods, sample.precpu.throttling.periods),
            scope: LabelScope::Base,
        });
        out.push(MetricRecord {
            instrument: Instrument::CpuCfsThrottledPeriodsTotal,
            value: counter_delta(
                sample.cpu.throttling.throttled_periods,
                sample.precpu.throttling.throttled_periods,
            ),
            scope: LabelScope::Base,
        });
        out.push(MetricRecord {
            instrument: Instrument::CpuCfsThrottledSecondsTotal,
            value: counter_delta(
                sample.cpu.throttling.throttled_time,
                sample.precpu.throttling.throttled_time,
            ),
            scope: LabelScope::Base,
        });
        proof {
            assert(out.deep_view() =~= spec_cpu_records(sm));
        }

        // Block I/O: deltas against the stored baseline, then advance it.
        if let Some(cur) = &sample.blkio {
            if let Some(last) = &self.last_io {
                let (last_r, last_w) = get_rw_totals(last);
                let (cur_r, cur_w) = get_rw_totals(cur);
                out.push(MetricRecord {
                    instrument: Instrument::FsReadsBytesTotal,
                    value: counter_delta(cur_r, last_r),
                    scope: LabelScope::Base,
                });
                out.push(MetricRecord {
                    instrument: Instrument::FsWritesBytesTotal,
                    value: counter_delta(cur_w, last_w),
                    scope: LabelScope::Base,
                });
            }
            self.last_io = Some(clone_entries(cur));
        }
        proof {
            assert(out.deep_view() =~= spec_cpu_records(sm) + spec_blkio_records(
                st0.last_io,
                sm.blkio,
            ));
        }

        // Liveness gauge.
        out.push(MetricRecord {
            instrument: Instrument::LastSeen,
            value: now_secs,
            scope: LabelScope::Base,
        });

        // Memory family: only the modern detail shape is emitted.
        if let Some(usage) = sample.memory.usage {
            if let MemoryDetailShape::V2(d) = sample.memory.detail {
                out.push(MetricRecord {
                    instrument: Instrument::MemoryCache,
                    value: d.file,
                    scope: LabelScope::Base,
                });
                if let MemoryDetailShape::V2(ld) = self.last_mem.detail {
                    let minor = counter_delta(d.pgfault, ld.pgfault);
                    let major = counter_delta(d.pgmajfault, ld.pgmajfault);
                    out.push(MetricRecord {
                        instrument: Instrument::MemoryFailuresTotal,
                        value: minor,
                        scope: LabelScope::MemMinorContainer,
                    });
                    out.push(MetricRecord {
                        instrument: Instrument::MemoryFailuresTotal,
                        value: minor,
                        scope: LabelScope::MemMinorHierarchy,
                    });
                    out.push(MetricRecord {
                        instrument: Instrument::MemoryFailuresTotal,
                        value: major,
                        scope: LabelScope::MemMajorContainer,
                    });
                    out.push(MetricRecord {
                        instrument: Instrument::MemoryFailuresTotal,
                        value: major,
                        scope: LabelScope::MemMajorHierarchy,
                    });
                }
                out.push(MetricRecord {
                    instrument: Instrument::MemoryMappedFile,
                    value: d.file_mapped,
                    scope: LabelScope::Base,
                });
                out.push(MetricRecord {
                    instrument: Instrument::MemoryRss,
                    value: d.anon,
                    scope: LabelScope::Base,
                });
                out.push(MetricRecord {
                    instrument: Instrument::MemoryUsageBytes,
                    value: usage,
                    scope: LabelScope::Base,
                });
                out.push(MetricRecord {
                    instrument: Instrument::MemoryWorkingSetBytes,
                    value: counter_delta(usage, d.inactive_file),
                    scope: LabelScope::Base,
                });
            }
        }
        self.last_mem = sample.memory;
        proof {
            assert(out.deep_view() =~= spec_cpu_records(sm) + spec_blkio_records(
                st0.last_io,
                sm.blkio,
            ) + seq![base_record(Instrument::LastSeen, now_secs)] + spec_memory_records(
                st0.last_mem,
                sm.memory,
            ));
        }

        let ghost head = out.deep_view();

        // Network family: per-interface deltas for interfaces present in
        // both the sample and the baseline.
        if let Some(net) = &sample.networks {
            if let Some(last_net) = &self.last_net {
                let ghost lm = last_net.deep_view();
                let ghost cm = net.deep_view();
                let mut i: usize = 0;
                while i < net.len()
                    invariant
                        i <= net.len(),
                        lm == last_net.deep_view(),
                        cm == net.deep_view(),
                        out.deep_view() =~= head + spec_net_records_list(lm, cm.take(i as int)),
                    decreases net.len() - i,
                {
                    let iface = &net[i];
                    proof {
                        assert(cm.take(i + 1).drop_last() =~= cm.take(i as int));
                        assert(cm.take(i + 1).last() == iface.deep_view());
                    }
                    if let Some(lc) = lookup_net(last_net, &iface.name) {
                        let c = iface.counters;
                        out.push(MetricRecord {
                            instrument: Instrument::NetworkReceiveBytesTotal,
                            value: counter_delta(c.rx_bytes, lc.rx_bytes),
                            scope: LabelScope::Interface(iface.name.clone()),
                        });
                        out.push(MetricRecord {
                            instrument: Instrument::NetworkTransmitBytesTotal,
                            value: counter_delta(c.tx_bytes, lc.tx_bytes),
                            scope: LabelScope::Interface(iface.name.clone()),
                        });
                        out.push(MetricRecord {
                            instrument: Instrument::NetworkReceiveErrorsTotal,
                            value: counter_delta(c.rx_errors, lc.rx_errors),
                            scope: LabelScope::Interface(iface.name.clone()),
                        });
                        out.push(MetricRecord {
                            instrument: Instrument::NetworkTransmitErrorsTotal,
                            value: counter_delta(c.tx_errors, lc.tx_errors),
                            scope: LabelScope::Interface(iface.name.clone()),
                        });
                        out.push(MetricRecord {
                            instrument: Instrument::NetworkReceivePacketsDroppedTotal,
                            value: counter_delta(c.rx_dropped, lc.rx_dropped),
                            scope: LabelScope::Interface(iface.name.clone()),
                        });
                        out.push(MetricRecord {
                            instrument: Instrument::NetworkTransmitPacketsDroppedTotal,
                            value: counter_delta(c.tx_dropped, lc.tx_dropped),
                            scope: LabelScope::Interface(iface.name.clone()),
                        });
                        out.push(MetricRecord {
                            instrument: Instrument::NetworkReceivePacketsTotal,
                            value: counter_delta(c.rx_packets, lc.rx_packets),
                            scope: LabelScope::Interface(iface.name.clone()),
                        });
                        out.push(MetricRecord {
                            instrument: Instrument::NetworkTransmitPacketsTotal,
                            value: counter_delta(c.tx_packets, lc.tx_packets),
                            scope: LabelScope::Interface(iface.name.clone()),
                        });
                    }
                    proof {
                        let ghost step = match spec_lookup_net(lm, cm[i as int].name) {
                            Some(lc2) => spec_iface_records(
                                cm[i as int].name,
                                cm[i as int].counters,
                                lc2,
                            ),
                            None => Seq::<MetricRecordModel>::empty(),
                        };
                        assert(spec_net_records_list(lm, cm.take(i + 1))
                            =~= spec_net_records_list(lm, cm.take(i as int)) + step);
                        assert(out.deep_view() =~= head + spec_net_records_list(
                            lm,
                            cm.take(i as int),
                        ) + step);
                    }
                    i = i + 1;
                }
                proof {
                    assert(cm.take(net.len() as int) =~= cm);
                }
            }
        }
        self.last_net = match &sample.networks {
            Some(v) => Some(clone_interfaces(v)),
            None => None,
        };
        proof {
            assert(out.deep_view() =~= head + spec_net_records(st0.last_net, sm.networks));
        }

        // Thread counts.
        if let Some(v) = sample.pids.current {
            out.push(MetricRecord {
                instrument: Instrument::Threads,
                value: v,
                scope: LabelScope::Base,
            });
        }
        if let Some(v) = sample.pids.limit {
            out.push(MetricRecord {
                instrument: Instrument::ThreadsMax,
                value: v,
                scope: LabelScope::Base,
            });
        }

        // Start-time gauge, once per worker.
        if !self.start_emitted {
            if let Some(c) = self.created {
                if c >= 0 {
                    out.push(MetricRecord {
                        instrument: Instrument::StartTimeSeconds,
                        value: c as u64,
                        scope: LabelScope::Base,
                    });
                    self.start_emitted = true;
                }
            }
        }

        proof {
            assert(out.deep_view() =~= spec_step_records(st0, sm, now_secs));
            assert(self@ == spec_step_state(st0, sm));
        }
        (StepOutcome::Emitted, out)
    }
}

} // verus!

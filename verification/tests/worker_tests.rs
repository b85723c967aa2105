use containerspy::identity::ContainerIdentity;
use containerspy::metrics::{Instrument, LabelScope, MetricRecord};
use containerspy::sample::{
    BlkioEntry, CpuSample, CpuUsage, MemoryDetail, MemoryDetailShape, MemorySample, NetCounters,
    NetInterface, PidsSample, StatSample, Throttling,
};
use containerspy::worker::{StepOutcome, WorkerState};

fn identity() -> ContainerIdentity {
    ContainerIdentity {
        id: Some("abc123".to_string()),
        image: Some("nginx:latest".to_string()),
        image_id: None,
        names: Some(vec!["/web".to_string()]),
        labels: None,
        created: Some(1_700_000_000),
    }
}

fn cpu(total: u64, user: u64, kernel: u64, periods: u64, tper: u64, ttime: u64) -> CpuSample {
    CpuSample {
        usage: CpuUsage { total, user, kernel },
        throttling: Throttling { periods, throttled_periods: tper, throttled_time: ttime },
    }
}

fn bare_sample(total: u64, pre_total: u64) -> StatSample {
    StatSample {
        cpu: cpu(total, 0, 0, 0, 0, 0),
        precpu: cpu(pre_total, 0, 0, 0, 0, 0),
        blkio: None,
        memory: MemorySample { usage: None, detail: MemoryDetailShape::Absent },
        networks: None,
        pids: PidsSample { current: None, limit: None },
    }
}

fn counters(base: u64) -> NetCounters {
    NetCounters {
        rx_bytes: base,
        rx_packets: base + 1,
        rx_errors: base + 2,
        rx_dropped: base + 3,
        tx_bytes: base + 4,
        tx_packets: base + 5,
        tx_errors: base + 6,
        tx_dropped: base + 7,
    }
}

fn is_delta_family(i: Instrument) -> bool {
    matches!(
        i,
        Instrument::FsReadsBytesTotal
            | Instrument::FsWritesBytesTotal
            | Instrument::MemoryFailuresTotal
            | Instrument::NetworkReceiveBytesTotal
            | Instrument::NetworkReceiveErrorsTotal
            | Instrument::NetworkReceivePacketsDroppedTotal
            | Instrument::NetworkReceivePacketsTotal
            | Instrument::NetworkTransmitBytesTotal
            | Instrument::NetworkTransmitErrorsTotal
            | Instrument::NetworkTransmitPacketsDroppedTotal
            | Instrument::NetworkTransmitPacketsTotal
    )
}

#[test]
fn exit_when_cpu_zero_and_declared_previous_nonzero() {
    let mut w = WorkerState::seed_worker(&identity(), &bare_sample(10, 5)).unwrap();
    let (outcome, records) = w.process_sample(&bare_sample(0, 42), 1000);
    assert_eq!(outcome, StepOutcome::Exit);
    assert!(records.is_empty());
}

#[test]
fn skip_when_both_cpu_totals_zero() {
    let mut w = WorkerState::seed_worker(&identity(), &bare_sample(10, 5)).unwrap();
    let (outcome, records) = w.process_sample(&bare_sample(0, 0), 1000);
    assert_eq!(outcome, StepOutcome::Skip);
    assert!(records.is_empty());
    // the worker keeps running: a later real sample still emits
    let (outcome2, records2) = w.process_sample(&bare_sample(50, 20), 1001);
    assert_eq!(outcome2, StepOutcome::Emitted);
    assert!(!records2.is_empty());
}

#[test]
fn seed_with_null_baselines_emits_no_deltas_on_first_comparison() {
    // S0 carries no block-I/O, no memory detail, no network interfaces.
    let s0 = bare_sample(10, 5);
    let mut w = WorkerState::seed_worker(&identity(), &s0).unwrap();

    // S1 carries everything; all baselines were null, so no delta family
    // may emit yet.
    let mut s1 = bare_sample(100, 40);
    s1.blkio = Some(vec![BlkioEntry { op: "read".to_string(), value: 500 }]);
    s1.memory = MemorySample {
        usage: Some(4096),
        detail: MemoryDetailShape::V2(MemoryDetail {
            file: 1,
            file_mapped: 2,
            anon: 3,
            inactive_file: 4,
            pgfault: 100,
            pgmajfault: 10,
        }),
    };
    s1.networks = Some(vec![NetInterface { name: "eth0".to_string(), counters: counters(50) }]);
    let (outcome, records) = w.process_sample(&s1, 1000);
    assert_eq!(outcome, StepOutcome::Emitted);
    assert!(records.iter().all(|r| !is_delta_family(r.instrument)));

    // S2: the baselines were established by S1, so deltas appear now.
    let mut s2 = bare_sample(200, 100);
    s2.blkio = Some(vec![BlkioEntry { op: "read".to_string(), value: 800 }]);
    s2.memory = MemorySample {
        usage: Some(5000),
        detail: MemoryDetailShape::V2(MemoryDetail {
            file: 1,
            file_mapped: 2,
            anon: 3,
            inactive_file: 4,
            pgfault: 130,
            pgmajfault: 12,
        }),
    };
    s2.networks = Some(vec![NetInterface { name: "eth0".to_string(), counters: counters(90) }]);
    let (_, records2) = w.process_sample(&s2, 1001);
    let reads: Vec<&MetricRecord> = records2
        .iter()
        .filter(|r| r.instrument == Instrument::FsReadsBytesTotal)
        .collect();
    assert_eq!(reads.len(), 1);
    assert_eq!(reads[0].value, 300);
    let faults: Vec<&MetricRecord> = records2
        .iter()
        .filter(|r| r.instrument == Instrument::MemoryFailuresTotal)
        .collect();
    assert_eq!(faults.len(), 4);
    assert_eq!(faults[0].value, 30); // minor, container scope
    assert_eq!(faults[2].value, 2); // major, container scope
    let rx: Vec<&MetricRecord> = records2
        .iter()
        .filter(|r| r.instrument == Instrument::NetworkReceiveBytesTotal)
        .collect();
    assert_eq!(rx.len(), 1);
    assert_eq!(rx[0].value, 40);
    assert!(matches!(&rx[0].scope, LabelScope::Interface(n) if n == "eth0"));
}

#[test]
fn full_emission_order_and_values() {
    let mut s0 = bare_sample(10, 5);
    s0.blkio = Some(vec![
        BlkioEntry { op: "read".to_string(), value: 100 },
        BlkioEntry { op: "write".to_string(), value: 50 },
    ]);
    s0.memory = MemorySample {
        usage: Some(1000),
        detail: MemoryDetailShape::V2(MemoryDetail {
            file: 0,
            file_mapped: 0,
            anon: 0,
            inactive_file: 0,
            pgfault: 10,
            pgmajfault: 2,
        }),
    };
    s0.networks = Some(vec![NetInterface { name: "eth0".to_string(), counters: counters(100) }]);
    let mut w = WorkerState::seed_worker(&identity(), &s0).unwrap();

    let s1 = StatSample {
        cpu: cpu(100, 30, 20, 8, 4, 1000),
        precpu: cpu(40, 10, 5, 6, 1, 400),
        blkio: Some(vec![
            BlkioEntry { op: "read".to_string(), value: 150 },
            BlkioEntry { op: "write".to_string(), value: 70 },
        ]),
        memory: MemorySample {
            usage: Some(5000),
            detail: MemoryDetailShape::V2(MemoryDetail {
                file: 111,
                file_mapped: 222,
                anon: 333,
                inactive_file: 1000,
                pgfault: 25,
                pgmajfault: 5,
            }),
        },
        networks: Some(vec![
            NetInterface { name: "eth0".to_string(), counters: counters(140) },
            NetInterface { name: "lo".to_string(), counters: counters(7) },
        ]),
        pids: PidsSample { current: Some(7), limit: Some(100) },
    };
    let (outcome, r) = w.process_sample(&s1, 12345);
    assert_eq!(outcome, StepOutcome::Emitted);
    // 6 cpu + 2 blkio + 1 last-seen + 9 memory + 8 net (eth0 only; lo has
    // no baseline) + 2 pids + 1 start-time
    assert_eq!(r.len(), 29);

    assert_eq!(r[0].instrument, Instrument::CpuUsageSecondsTotal);
    assert_eq!(r[0].value, 60);
    assert_eq!(r[1].instrument, Instrument::CpuUserSecondsTotal);
    assert_eq!(r[1].value, 20);
    assert_eq!(r[2].instrument, Instrument::CpuSystemSecondsTotal);
    assert_eq!(r[2].value, 15);
    assert_eq!(r[3].instrument, Instrument::CpuCfsPeriodsTotal);
    assert_eq!(r[3].value, 2);
    assert_eq!(r[4].instrument, Instrument::CpuCfsThrottledPeriodsTotal);
    assert_eq!(r[4].value, 3);
    assert_eq!(r[5].instrument, Instrument::CpuCfsThrottledSecondsTotal);
    assert_eq!(r[5].value, 600);

    assert_eq!(r[6].instrument, Instrument::FsReadsBytesTotal);
    assert_eq!(r[6].value, 50);
    assert_eq!(r[7].instrument, Instrument::FsWritesBytesTotal);
    assert_eq!(r[7].value, 20);

    assert_eq!(r[8].instrument, Instrument::LastSeen);
    assert_eq!(r[8].value, 12345);

    assert_eq!(r[9].instrument, Instrument::MemoryCache);
    assert_eq!(r[9].value, 111);
    assert_eq!(r[10].instrument, Instrument::MemoryFailuresTotal);
    assert_eq!(r[10].value, 15);
    assert!(matches!(r[10].scope, LabelScope::MemMinorContainer));
    assert!(matches!(r[11].scope, LabelScope::MemMinorHierarchy));
    assert_eq!(r[11].value, 15);
    assert!(matches!(r[12].scope, LabelScope::MemMajorContainer));
    assert_eq!(r[12].value, 3);
    assert!(matches!(r[13].scope, LabelScope::MemMajorHierarchy));
    assert_eq!(r[13].value, 3);
    assert_eq!(r[14].instrument, Instrument::MemoryMappedFile);
    assert_eq!(r[14].value, 222);
    assert_eq!(r[15].instrument, Instrument::MemoryRss);
    assert_eq!(r[15].value, 333);
    assert_eq!(r[16].instrument, Instrument::MemoryUsageBytes);
    assert_eq!(r[16].value, 5000);
    assert_eq!(r[17].instrument, Instrument::MemoryWorkingSetBytes);
    assert_eq!(r[17].value, 4000);

    assert_eq!(r[18].instrument, Instrument::NetworkReceiveBytesTotal);
    assert_eq!(r[18].value, 40);
    assert!(matches!(&r[18].scope, LabelScope::Interface(n) if n == "eth0"));
    assert_eq!(r[19].instrument, Instrument::NetworkTransmitBytesTotal);
    assert_eq!(r[20].instrument, Instrument::NetworkReceiveErrorsTotal);
    assert_eq!(r[21].instrument, Instrument::NetworkTransmitErrorsTotal);
    assert_eq!(r[22].instrument, Instrument::NetworkReceivePacketsDroppedTotal);
    assert_eq!(r[23].instrument, Instrument::NetworkTransmitPacketsDroppedTotal);
    assert_eq!(r[24].instrument, Instrument::NetworkReceivePacketsTotal);
    assert_eq!(r[25].instrument, Instrument::NetworkTransmitPacketsTotal);
    for k in 18..26 {
        assert_eq!(r[k].value, 40);
    }

    assert_eq!(r[26].instrument, Instrument::Threads);
    assert_eq!(r[26].value, 7);
    assert_eq!(r[27].instrument, Instrument::ThreadsMax);
    assert_eq!(r[27].value, 100);

    assert_eq!(r[28].instrument, Instrument::StartTimeSeconds);
    assert_eq!(r[28].value, 1_700_000_000);

    // the start-time gauge is emitted once per worker
    let (_, r2) = w.process_sample(&bare_sample(200, 100), 12346);
    assert!(r2.iter().all(|rec| rec.instrument != Instrument::StartTimeSeconds));
}

#[test]
fn working_set_clamps_when_inactive_file_exceeds_usage() {
    let s0 = bare_sample(10, 5);
    let mut w = WorkerState::seed_worker(&identity(), &s0).unwrap();
    let mut s1 = bare_sample(100, 40);
    s1.memory = MemorySample {
        usage: Some(100),
        detail: MemoryDetailShape::V2(MemoryDetail {
            file: 0,
            file_mapped: 0,
            anon: 0,
            inactive_file: 5000,
            pgfault: 0,
            pgmajfault: 0,
        }),
    };
    let (_, r) = w.process_sample(&s1, 1);
    let ws: Vec<_> = r
        .iter()
        .filter(|rec| rec.instrument == Instrument::MemoryWorkingSetBytes)
        .collect();
    assert_eq!(ws.len(), 1);
    assert_eq!(ws[0].value, 0);
}

#[test]
fn legacy_memory_shape_emits_no_memory_records() {
    let s0 = bare_sample(10, 5);
    let mut w = WorkerState::seed_worker(&identity(), &s0).unwrap();
    let mut s1 = bare_sample(100, 40);
    s1.memory = MemorySample { usage: Some(100), detail: MemoryDetailShape::Legacy };
    let (_, r) = w.process_sample(&s1, 1);
    assert!(r.iter().all(|rec| !matches!(
        rec.instrument,
        Instrument::MemoryCache
            | Instrument::MemoryFailuresTotal
            | Instrument::MemoryMappedFile
            | Instrument::MemoryRss
            | Instrument::MemoryUsageBytes
            | Instrument::MemoryWorkingSetBytes
    )));
}

#[test]
fn seed_fails_without_image_and_image_id() {
    let c = ContainerIdentity {
        id: Some("abc".to_string()),
        image: None,
        image_id: None,
        names: None,
        labels: None,
        created: None,
    };
    assert!(WorkerState::seed_worker(&c, &bare_sample(1, 0)).is_err());
}

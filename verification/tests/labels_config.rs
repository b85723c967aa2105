use containerspy::config::{parse_protocol, tick_interval_ms, OtlpProtocol};
use containerspy::identity::ContainerIdentity;
use containerspy::labels::build_label_sets;
use containerspy::metrics::{Instrument, MetricKind};

fn pairs(sets: &Vec<containerspy::labels::Label>) -> Vec<(String, String)> {
    sets.iter().map(|l| (l.key.clone(), l.value.clone())).collect()
}

#[test]
fn label_set_with_name_and_labels() {
    let c = ContainerIdentity {
        id: Some("abc123".to_string()),
        image: Some("nginx:latest".to_string()),
        image_id: Some("sha256:fff".to_string()),
        names: Some(vec!["/web".to_string(), "/other".to_string()]),
        labels: Some(vec![("team".to_string(), "infra".to_string())]),
        created: None,
    };
    let ls = build_label_sets(&c).unwrap();
    assert_eq!(
        pairs(&ls.base),
        vec![
            ("id".to_string(), "abc123".to_string()),
            ("image".to_string(), "nginx:latest".to_string()),
            ("name".to_string(), "web".to_string()),
            ("container_label_team".to_string(), "infra".to_string()),
        ]
    );
}

#[test]
fn nameless_container_resolves_from_id_image_labels_only() {
    let c = ContainerIdentity {
        id: Some("abc123".to_string()),
        image: Some("nginx".to_string()),
        image_id: None,
        names: None,
        labels: Some(vec![("a".to_string(), "b".to_string())]),
        created: None,
    };
    let ls = build_label_sets(&c).unwrap();
    let base = pairs(&ls.base);
    assert!(base.iter().all(|(k, _)| k != "name"));
    assert_eq!(
        base,
        vec![
            ("id".to_string(), "abc123".to_string()),
            ("image".to_string(), "nginx".to_string()),
            ("container_label_a".to_string(), "b".to_string()),
        ]
    );
}

#[test]
fn empty_name_list_resolves_no_name() {
    let c = ContainerIdentity {
        id: Some("x".to_string()),
        image: Some("img".to_string()),
        image_id: None,
        names: Some(vec![]),
        labels: None,
        created: None,
    };
    let ls = build_label_sets(&c).unwrap();
    assert!(pairs(&ls.base).iter().all(|(k, _)| k != "name"));
}

#[test]
fn leading_path_separator_is_stripped() {
    let c = ContainerIdentity {
        id: Some("x".to_string()),
        image: Some("img".to_string()),
        image_id: None,
        names: Some(vec!["//deep/name".to_string()]),
        labels: None,
        created: None,
    };
    let ls = build_label_sets(&c).unwrap();
    let base = pairs(&ls.base);
    assert_eq!(base[2], ("name".to_string(), "deep/name".to_string()));
}

#[test]
fn image_id_is_the_fallback() {
    let c = ContainerIdentity {
        id: Some("x".to_string()),
        image: None,
        image_id: Some("sha256:aaa".to_string()),
        names: None,
        labels: None,
        created: None,
    };
    let ls = build_label_sets(&c).unwrap();
    assert_eq!(pairs(&ls.base)[1], ("image".to_string(), "sha256:aaa".to_string()));
}

#[test]
fn derived_memory_label_sets() {
    let c = ContainerIdentity {
        id: Some("x".to_string()),
        image: Some("img".to_string()),
        image_id: None,
        names: None,
        labels: None,
        created: None,
    };
    let ls = build_label_sets(&c).unwrap();
    let minor_c = pairs(&ls.mem_minor_container);
    assert_eq!(minor_c[2], ("failure_type".to_string(), "pgfault".to_string()));
    assert_eq!(minor_c[3], ("scope".to_string(), "container".to_string()));
    let minor_h = pairs(&ls.mem_minor_hierarchy);
    assert_eq!(minor_h[2], ("failure_type".to_string(), "pgfault".to_string()));
    assert_eq!(minor_h[3], ("scope".to_string(), "hierarchy".to_string()));
    let major_c = pairs(&ls.mem_major_container);
    assert_eq!(major_c[2], ("failure_type".to_string(), "pgmajfault".to_string()));
    assert_eq!(major_c[3], ("scope".to_string(), "container".to_string()));
    let major_h = pairs(&ls.mem_major_hierarchy);
    assert_eq!(major_h[2], ("failure_type".to_string(), "pgmajfault".to_string()));
    assert_eq!(major_h[3], ("scope".to_string(), "hierarchy".to_string()));
}

#[test]
fn protocol_parsing() {
    assert_eq!(parse_protocol("httpbinary"), Some(OtlpProtocol::HttpBinary));
    assert_eq!(parse_protocol("httpjson"), Some(OtlpProtocol::HttpJson));
    assert_eq!(parse_protocol("grpc"), Some(OtlpProtocol::Grpc));
    assert_eq!(parse_protocol("HTTPBINARY"), None);
    assert_eq!(parse_protocol(""), None);
    assert_eq!(parse_protocol("http"), None);
}

#[test]
fn tick_interval_halves_export_interval() {
    assert_eq!(tick_interval_ms(Some(10_000)), 5_000);
    assert_eq!(tick_interval_ms(Some(1)), 0);
    assert_eq!(tick_interval_ms(None), 3_000);
}

#[test]
fn instrument_vocabulary() {
    assert_eq!(Instrument::CpuUsageSecondsTotal.name(), "container_cpu_usage_seconds_total");
    assert_eq!(Instrument::MemoryWorkingSetBytes.name(), "container_memory_working_set_bytes");
    assert_eq!(
        Instrument::NetworkTransmitPacketsDroppedTotal.name(),
        "container_network_transmit_packets_dropped_total"
    );
    assert_eq!(Instrument::CpuUsageSecondsTotal.kind(), MetricKind::Counter);
    assert_eq!(Instrument::MemoryRss.kind(), MetricKind::Gauge);
    assert!(Instrument::CpuCfsThrottledSecondsTotal.time_valued());
    assert!(!Instrument::CpuCfsThrottledPeriodsTotal.time_valued());
    assert_eq!(Instrument::CpuUsageSecondsTotal.unit(), Some("s"));
    assert_eq!(Instrument::FsWritesBytesTotal.unit(), Some("By"));
    assert_eq!(Instrument::Threads.unit(), None);
}

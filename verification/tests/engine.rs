use containerspy::blkio::{clone_entries, get_rw_totals};
use containerspy::delta::{cpu_delta_from_docker, cpu_delta_hundred_ns_ticks, counter_delta};
use containerspy::sample::BlkioEntry;

fn entry(op: &str, value: u64) -> BlkioEntry {
    BlkioEntry { op: op.to_string(), value }
}

#[test]
fn delta_normal_increase() {
    assert_eq!(counter_delta(150, 100), 50);
    assert_eq!(counter_delta(100, 100), 0);
}

#[test]
fn delta_counter_reset_clamps_to_zero() {
    assert_eq!(counter_delta(3, 1000), 0);
    assert_eq!(counter_delta(0, u64::MAX), 0);
}

#[test]
fn cpu_delta_nanoseconds_platform() {
    assert_eq!(cpu_delta_from_docker(2_000_000_000, 500_000_000), 1_500_000_000);
    // seconds at the exporter edge: delta_ns / 1e9
    assert_eq!(cpu_delta_from_docker(2_000_000_000, 500_000_000) as f64 / 1e9, 1.5);
    assert_eq!(cpu_delta_from_docker(100, 200), 0);
}

#[test]
fn cpu_delta_hundred_ns_platform() {
    assert_eq!(cpu_delta_hundred_ns_ticks(30, 10), 2000);
    assert_eq!(cpu_delta_hundred_ns_ticks(10, 30), 0);
    // saturates instead of wrapping
    assert_eq!(cpu_delta_hundred_ns_ticks(u64::MAX, 0), u64::MAX);
}

#[test]
fn rw_totals_sums_read_and_write() {
    let entries = vec![
        entry("read", 100),
        entry("write", 40),
        entry("read", 23),
        entry("write", 2),
    ];
    assert_eq!(get_rw_totals(&entries), (123, 42));
}

#[test]
fn rw_totals_ignores_unknown_ops() {
    let entries = vec![
        entry("read", 7),
        entry("async", 1000),
        entry("total", 2000),
        entry("write", 9),
    ];
    assert_eq!(get_rw_totals(&entries), (7, 9));
}

#[test]
fn rw_totals_empty() {
    assert_eq!(get_rw_totals(&Vec::new()), (0, 0));
}

#[test]
fn rw_totals_saturates() {
    let entries = vec![entry("read", u64::MAX), entry("read", 5)];
    assert_eq!(get_rw_totals(&entries), (u64::MAX, 0));
}

#[test]
fn clone_entries_copies() {
    let entries = vec![entry("read", 1), entry("write", 2)];
    let copy = clone_entries(&entries);
    assert_eq!(copy.len(), 2);
    assert_eq!(copy[0].op, "read");
    assert_eq!(copy[0].value, 1);
    assert_eq!(copy[1].op, "write");
    assert_eq!(copy[1].value, 2);
}

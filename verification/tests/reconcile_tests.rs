use containerspy::identity::ContainerIdentity;
use containerspy::reconcile::Registry;

fn listing_entry(id: &str) -> ContainerIdentity {
    ContainerIdentity {
        id: Some(id.to_string()),
        image: Some("img".to_string()),
        image_id: None,
        names: None,
        labels: None,
        created: None,
    }
}

#[test]
fn unchanged_listing_is_idempotent() {
    let mut reg: Registry<u64> = Registry::new();
    reg.insert("a".to_string(), 1);
    reg.insert("b".to_string(), 2);

    let current = vec![listing_entry("a"), listing_entry("b")];
    let launches = reg.to_launch(&current);
    assert!(launches.is_empty());
    let removed = reg.prune_absent(&current);
    assert!(removed.is_empty());
    assert_eq!(reg.entries.len(), 2);
    assert_eq!(reg.entries[0].id, "a");
    assert_eq!(reg.entries[0].handle, 1);
    assert_eq!(reg.entries[1].id, "b");
    assert_eq!(reg.entries[1].handle, 2);
}

#[test]
fn tick_removes_absent_keeps_surviving_adds_new() {
    // tick 1: {A, B}
    let mut reg: Registry<u64> = Registry::new();
    let tick1 = vec![listing_entry("a"), listing_entry("b")];
    let launches = reg.to_launch(&tick1);
    assert_eq!(launches, vec![0, 1]);
    reg.insert("a".to_string(), 1);
    reg.insert("b".to_string(), 2);

    // tick 2: {B, C} — A's worker goes, B's stays untouched, C gets one
    let tick2 = vec![listing_entry("b"), listing_entry("c")];
    let removed = reg.prune_absent(&tick2);
    assert_eq!(removed.len(), 1);
    assert_eq!(removed[0].id, "a");
    assert_eq!(removed[0].handle, 1);
    assert_eq!(reg.entries.len(), 1);
    assert_eq!(reg.entries[0].id, "b");
    assert_eq!(reg.entries[0].handle, 2); // same instance, state preserved

    let launches2 = reg.to_launch(&tick2);
    assert_eq!(launches2, vec![1]);
    assert_eq!(tick2[1].id.as_deref(), Some("c"));
    reg.insert("c".to_string(), 3);
    assert_eq!(reg.entries.len(), 2);
    assert!(reg.contains(&"b".to_string()));
    assert!(reg.contains(&"c".to_string()));
    assert!(!reg.contains(&"a".to_string()));
}

#[test]
fn listing_entries_without_id_are_filtered() {
    let reg: Registry<u64> = Registry::new();
    let no_id = ContainerIdentity {
        id: None,
        image: None,
        image_id: None,
        names: None,
        labels: None,
        created: None,
    };
    let current = vec![no_id, listing_entry("x")];
    let launches = reg.to_launch(&current);
    assert_eq!(launches, vec![1]);
}

#[test]
fn duplicate_listing_ids_launch_once() {
    let reg: Registry<u64> = Registry::new();
    let current = vec![listing_entry("x"), listing_entry("x"), listing_entry("y")];
    let launches = reg.to_launch(&current);
    assert_eq!(launches, vec![0, 2]);
}

#[test]
fn shutdown_sweep_takes_everything() {
    let mut reg: Registry<u64> = Registry::new();
    reg.insert("a".to_string(), 1);
    reg.insert("b".to_string(), 2);
    let all = reg.take_all();
    assert_eq!(all.len(), 2);
    assert_eq!(all[0].id, "a");
    assert_eq!(all[1].id, "b");
    assert!(reg.entries.is_empty());
}

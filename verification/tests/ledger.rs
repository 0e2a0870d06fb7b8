use openlogi::backend::NodeId;
use openlogi::device::{DeviceInventory, ReceiverInfo};
use openlogi::inventory::ledger::{NodeLedger, CHANNEL_EVICT_AFTER, NODE_MISS_GRACE};

fn inventory(name: &str) -> DeviceInventory {
    DeviceInventory {
        receiver: ReceiverInfo { name: name.to_string(), vendor_id: 0x046d, product_id: 0xc548, unique_id: None },
        paired: Vec::new(),
    }
}

fn receiver_name(inv: Option<&DeviceInventory>) -> Option<&str> {
    inv.map(|i| i.receiver.name.as_str())
}

#[test]
fn failed_probe_replays_the_last_good_inventory_within_grace() {
    let mut ledger = NodeLedger::default();
    ledger.settle(&1, true, Some(inventory("bolt")));
    for _ in 0..NODE_MISS_GRACE {
        let settled = ledger.settle(&1, false, None);
        assert_eq!(receiver_name(settled.inventory.as_ref()), Some("bolt"));
    }
}

#[test]
fn replay_grace_expires_to_the_live_result() {
    let mut ledger = NodeLedger::default();
    ledger.settle(&1, true, Some(inventory("bolt")));
    for _ in 0..NODE_MISS_GRACE {
        ledger.settle(&1, false, None);
    }
    let expired = ledger.settle(&1, false, Some(inventory("partial")));
    assert_eq!(receiver_name(expired.inventory.as_ref()), Some("partial"));
    let after = ledger.settle(&1, false, None);
    assert!(after.inventory.is_none());
}

#[test]
fn a_healthy_tick_resets_the_failure_count() {
    let mut ledger = NodeLedger::default();
    ledger.settle(&1, true, Some(inventory("bolt")));
    for _ in 0..NODE_MISS_GRACE {
        ledger.settle(&1, false, None);
    }
    ledger.settle(&1, true, Some(inventory("bolt")));
    let settled = ledger.settle(&1, false, None);
    assert_eq!(
        receiver_name(settled.inventory.as_ref()),
        Some("bolt"),
        "the recovery should re-arm the full replay grace"
    );
}

#[test]
fn persistent_failure_keeps_requesting_channel_eviction() {
    let mut ledger = NodeLedger::default();
    ledger.settle(&1, true, Some(inventory("bolt")));
    for i in 1..=NODE_MISS_GRACE + 2 {
        let settled = ledger.settle(&1, false, None);
        assert_eq!(
            settled.evict_channel,
            i >= CHANNEL_EVICT_AFTER,
            "tick {i}: eviction starts at the threshold and keeps firing"
        );
    }
    let recovered = ledger.settle(&1, true, Some(inventory("bolt")));
    assert!(!recovered.evict_channel);
}

#[test]
fn one_failed_probe_never_evicts_but_keeps_the_devices_visible() {
    let mut ledger = NodeLedger::default();
    ledger.settle(&1, true, Some(inventory("bolt")));

    let first = ledger.settle(&1, false, None);

    assert!(!first.evict_channel);
    assert_eq!(receiver_name(first.inventory.as_ref()), Some("bolt"));
    assert!(
        ledger.settle(&1, false, None).evict_channel,
        "a node that keeps failing is still replaced on the next tick"
    );
}

#[test]
fn a_healthy_empty_result_clears_the_replay_state() {
    let mut ledger = NodeLedger::default();
    ledger.settle(&1, true, Some(inventory("bolt")));
    ledger.settle(&1, true, None);
    let settled = ledger.settle(&1, false, None);
    assert!(settled.inventory.is_none());
}

#[test]
fn vanished_nodes_are_dropped_from_the_ledger() {
    let mut ledger = NodeLedger::default();
    ledger.settle(&1, true, Some(inventory("kept")));
    ledger.settle(&2, true, Some(inventory("gone")));
    ledger.retain_nodes(&[1]);
    let replayed = ledger.settle(&1, false, None);
    assert_eq!(receiver_name(replayed.inventory.as_ref()), Some("kept"));
    let dropped = ledger.settle(&2, false, None);
    assert!(dropped.inventory.is_none(), "a reappeared node starts clean");
}

#[test]
fn nodes_are_tracked_independently_by_node_id() {
    let mut ledger: NodeLedger<NodeId> = NodeLedger::new();
    let a = NodeId::from("hidraw1".to_string());
    let b = NodeId::from("hidraw2".to_string());
    ledger.settle(&a, true, Some(inventory("a")));
    ledger.settle(&b, true, Some(inventory("b")));
    let first = ledger.settle(&b, false, None);
    assert_eq!(receiver_name(first.inventory.as_ref()), Some("b"));
    let other = ledger.settle(&a, false, None);
    assert_eq!(receiver_name(other.inventory.as_ref()), Some("a"));
    assert!(!other.evict_channel);
}

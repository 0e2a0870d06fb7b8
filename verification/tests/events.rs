use openlogi::inventory::events::{EventFeatureIndices, HidppEventSource, ObservedMessage, SubscriptionState};
use openlogi::registry::ReceiverProtocol;

fn device_message(device_index: u8, feature_index: u8, wireless_event: bool, battery_event: bool) -> ObservedMessage {
    ObservedMessage {
        matched: false,
        receiver_connection: false,
        device_index,
        feature_index,
        software_id: 0,
        wireless_event,
        battery_event,
    }
}

#[test]
fn feature_indices_are_runtime_table_positions() {
    assert_eq!(
        EventFeatureIndices::from_feature_ids(&[0x0001, 0x1d4b, 0x1004]),
        EventFeatureIndices {
            wireless_status: Some(2),
            unified_battery: Some(3),
        }
    );
}

#[test]
fn receiver_snapshot_suppresses_only_triggered_connection_wakeups() {
    let mut state = SubscriptionState::new(Some(ReceiverProtocol::Unifying));
    let raw = ObservedMessage {
        matched: false,
        receiver_connection: true,
        device_index: 2,
        feature_index: 0x41,
        software_id: 0,
        wireless_event: false,
        battery_event: false,
    };

    assert_eq!(state.decode(&raw), Some(HidppEventSource::ReceiverConnection));
    state.begin_receiver_snapshot();
    assert_eq!(state.decode(&raw), None);
    state.end_receiver_snapshot();
    assert_eq!(state.decode(&raw), Some(HidppEventSource::ReceiverConnection));
}

#[test]
fn receiver_snapshot_does_not_suppress_device_feature_events() {
    let mut state = SubscriptionState::new(Some(ReceiverProtocol::Bolt));
    state.register_device(
        2,
        EventFeatureIndices {
            wireless_status: Some(5),
            unified_battery: None,
        },
    );
    state.begin_receiver_snapshot();

    assert_eq!(
        state.decode(&device_message(2, 5, true, false)),
        Some(HidppEventSource::WirelessDeviceStatus)
    );
}

#[test]
fn registered_device_events_decode_to_typed_sources() {
    let mut state = SubscriptionState::new(None);
    state.register_device(
        3,
        EventFeatureIndices {
            wireless_status: Some(5),
            unified_battery: Some(7),
        },
    );

    assert_eq!(
        state.decode(&device_message(3, 5, true, false)),
        Some(HidppEventSource::WirelessDeviceStatus)
    );
    assert_eq!(
        state.decode(&device_message(3, 7, false, true)),
        Some(HidppEventSource::UnifiedBattery)
    );
}

#[test]
fn replies_foreign_devices_and_software_messages_are_ignored() {
    let mut state = SubscriptionState::new(None);
    let features = EventFeatureIndices { wireless_status: Some(5), unified_battery: Some(7) };
    state.register_device(3, features);
    let mut reply = device_message(3, 5, true, false);
    reply.matched = true;
    assert_eq!(state.decode(&reply), None);
    assert_eq!(state.decode(&device_message(4, 5, true, false)), None);
    let mut software = device_message(3, 5, true, false);
    software.software_id = 1;
    assert_eq!(state.decode(&software), None);
    assert_eq!(state.decode(&device_message(3, 7, true, false)), None);
    assert_eq!(state.features_of(3), Some(features));

    let moved = EventFeatureIndices { wireless_status: Some(9), unified_battery: None };
    state.register_device(3, moved);
    assert_eq!(state.features_of(3), Some(moved));
    assert_eq!(state.decode(&device_message(3, 5, true, false)), None);
    assert_eq!(state.decode(&device_message(3, 9, true, false)), Some(HidppEventSource::WirelessDeviceStatus));
}

#[test]
fn the_last_table_entry_of_a_feature_wins_and_indices_stop_at_a_byte() {
    let mut ids = vec![0x1d4b, 0x0001, 0x1d4b];
    assert_eq!(EventFeatureIndices::from_feature_ids(&ids).wireless_status, Some(3));
    ids.resize(300, 0x0002);
    ids[254] = 0x1004;
    ids[255] = 0x1004;
    assert_eq!(EventFeatureIndices::from_feature_ids(&ids).unified_battery, Some(255));
    assert_eq!(EventFeatureIndices::from_feature_ids(&[]), EventFeatureIndices::default());
}

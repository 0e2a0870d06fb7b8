use openlogi::hid::pairing::Click;
use openlogi::pairing::notification::{decode, id, parse_notification, Notification, RawMessage};
use openlogi::pairing::passkey_to_clicks;

fn long(sub_id: u8, device_index: u8, p: [u8; 17]) -> RawMessage {
    let mut d = [0u8; 19];
    d[0] = device_index;
    d[1] = sub_id;
    d[2..19].copy_from_slice(&p);
    RawMessage::Long(d)
}

#[test]
fn decode_maps_long_payload_to_address_first() {
    let msg = long(id::DEVICE_DISCOVERY, 0xff, {
        let mut p = [0u8; 17];
        p[0] = 0x07;
        p[1] = 0x00;
        p
    });
    let (idx, sub, payload) = decode(&msg);
    assert_eq!(idx, 0xff);
    assert_eq!(sub, id::DEVICE_DISCOVERY);
    assert_eq!(payload[0], 0x07);
    assert_eq!(payload[1], 0x00);
}

#[test]
fn decode_zero_pads_short_payloads() {
    let msg = RawMessage::Short([0x01, id::DEVICE_CONNECTION, 0x0a, 0x40, 0x0c, 0x0d]);
    let (idx, sub, payload) = decode(&msg);
    assert_eq!((idx, sub), (0x01, id::DEVICE_CONNECTION));
    assert_eq!(&payload[..4], &[0x0a, 0x40, 0x0c, 0x0d]);
    assert!(payload[4..].iter().all(|b| *b == 0));
    assert_eq!(
        parse_notification(sub, idx, payload),
        Some(Notification::Connected { slot: 1, established: false })
    );
}

#[test]
fn parses_discovery_info_frame() {
    let mut p = [0u8; 17];
    p[0] = 0x05;
    p[1] = 0x00;
    p[2] = 0x00;
    p[4] = 0x02;
    p[7..13].copy_from_slice(&[0xde, 0xad, 0xbe, 0xef, 0x01, 0x02]);
    p[15] = 0x01;
    assert_eq!(
        parse_notification(id::DEVICE_DISCOVERY, 0xff, p),
        Some(Notification::DiscoveryInfo {
            counter: 5,
            kind: 0x02,
            address: [0xde, 0xad, 0xbe, 0xef, 0x01, 0x02],
            authentication: 0x01,
        })
    );
}

#[test]
fn parses_discovery_name_frame() {
    let mut p = [0u8; 17];
    p[0] = 0x05;
    p[1] = 0x00;
    p[2] = 0x01;
    p[3] = 0x03;
    p[4..7].copy_from_slice(b"MX3");
    assert_eq!(
        parse_notification(id::DEVICE_DISCOVERY, 0xff, p),
        Some(Notification::DiscoveryName { counter: 5, name: "MX3".to_string() })
    );
}

#[test]
fn overlong_name_length_is_clamped_and_counter_is_little_endian() {
    let mut p = [b'a'; 17];
    p[0] = 0x34;
    p[1] = 0x12;
    p[2] = 0x01;
    p[3] = 0xff;
    assert_eq!(
        parse_notification(id::DEVICE_DISCOVERY, 0xff, p),
        Some(Notification::DiscoveryName { counter: 0x1234, name: "a".repeat(13) })
    );
    p[2] = 0x02;
    assert_eq!(parse_notification(id::DEVICE_DISCOVERY, 0xff, p), None);
}

#[test]
fn parses_pairing_success_with_slot() {
    let mut p = [0u8; 17];
    p[0] = 0x02;
    p[1] = 0x00;
    p[8] = 0x03;
    assert_eq!(
        parse_notification(id::PAIRING_STATUS, 0xff, p),
        Some(Notification::PairingSucceeded { slot: 3 })
    );
}

#[test]
fn parses_pairing_error() {
    let mut p = [0u8; 17];
    p[0] = 0x00;
    p[1] = 0x01;
    assert_eq!(parse_notification(id::PAIRING_STATUS, 0xff, p), Some(Notification::PairingError(0x01)));
}

#[test]
fn discovery_status_reports_only_errors() {
    let mut p = [0u8; 17];
    assert_eq!(parse_notification(id::DISCOVERY_STATUS, 0xff, p), None);
    p[1] = 0x07;
    assert_eq!(parse_notification(id::DISCOVERY_STATUS, 0xff, p), Some(Notification::PairingError(0x07)));
    assert_eq!(parse_notification(0x99, 0xff, p), None);
}

#[test]
fn parses_passkey_digits() {
    let mut p = [0u8; 17];
    p[1..7].copy_from_slice(b"123456");
    assert_eq!(
        parse_notification(id::PASSKEY_REQUEST, 0xff, p),
        Some(Notification::Passkey { digits: "123456".to_string(), value: 123_456 })
    );
}

#[test]
fn parses_nul_padded_passkey() {
    let mut p = [0u8; 17];
    p[1..4].copy_from_slice(b"042");
    assert_eq!(
        parse_notification(id::PASSKEY_REQUEST, 0xff, p),
        Some(Notification::Passkey { digits: "042".to_string(), value: 42 })
    );
}

#[test]
fn non_digit_passkey_is_malformed() {
    let mut p = [0u8; 17];
    p[1..7].copy_from_slice(b"12x456");
    assert_eq!(parse_notification(id::PASSKEY_REQUEST, 0xff, p), Some(Notification::MalformedPasskey));
}

#[test]
fn empty_passkey_is_malformed() {
    let p = [0u8; 17];
    assert_eq!(parse_notification(id::PASSKEY_REQUEST, 0xff, p), Some(Notification::MalformedPasskey));
}

#[test]
fn parses_unifying_lock() {
    let mut p = [0u8; 17];
    p[0] = 0x01;
    assert_eq!(
        parse_notification(id::UNIFYING_LOCK, 0xff, p),
        Some(Notification::UnifyingLock { open: true, error: 0 })
    );
}

#[test]
fn passkey_clicks_are_msb_first_10_bits() {
    assert_eq!(
        passkey_to_clicks(5),
        vec![
            Click::Left,
            Click::Left,
            Click::Left,
            Click::Left,
            Click::Left,
            Click::Left,
            Click::Left,
            Click::Right,
            Click::Left,
            Click::Right,
        ]
    );
}

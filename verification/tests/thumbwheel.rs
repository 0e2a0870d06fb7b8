use hidpp::nibble::U4;
use hidpp::protocol::v20;
use openlogi::thumbwheel::{
    decode_event, decode_message, divert_params, info_from_payload, undivert_params, RotationStatus, ThumbwheelEvent,
    HeaderFields, ThumbwheelInfo, WheelDirection, WheelResolution, EV_SINGLE_TAP, EV_TOUCH,
};

fn event(function_id: u8, software_id: u8, payload: [u8; 16]) -> v20::Message {
    v20::Message::Long(
        v20::MessageHeader {
            device_index: 2,
            feature_index: 6,
            function_id: U4::from_lo(function_id),
            software_id: U4::from_lo(software_id),
        },
        payload,
    )
}

#[test]
fn decodes_rotation_and_tap() {
    let mut p = [0u8; 16];
    p[0..2].copy_from_slice(&(-7i16).to_be_bytes());
    p[4] = 2;
    p[5] = EV_SINGLE_TAP | EV_TOUCH;
    assert_eq!(
        decode_message(&event(0, 0, p), 2, 6),
        Some(ThumbwheelEvent {
            rotation: -7,
            rotation_status: RotationStatus::Active,
            single_tap: true,
            touch: true,
            proxy: false,
        })
    );
}

#[test]
fn decodes_every_rotation_status() {
    let status = |byte| {
        let mut p = [0u8; 16];
        p[4] = byte;
        decode_message(&event(0, 0, p), 2, 6).expect("event").rotation_status
    };
    assert_eq!(status(0), RotationStatus::Inactive);
    assert_eq!(status(1), RotationStatus::Start);
    assert_eq!(status(2), RotationStatus::Active);
    assert_eq!(status(3), RotationStatus::Stop);
    assert_eq!(
        status(0xff),
        RotationStatus::Inactive,
        "an unrecognised value must not make the tap permanently undeliverable"
    );
}

#[test]
fn positive_direction_follows_the_device_report() {
    let info = |default_dir| ThumbwheelInfo {
        resolution: WheelResolution::unknown(),
        default_dir,
        supports_single_tap: false,
    };
    assert!(!info(0).positive_is_forward());
    assert!(info(1).positive_is_forward());
}

#[test]
fn a_stop_report_is_still_part_of_the_roll() {
    assert!(RotationStatus::Stop.is_rolling());
    assert!(RotationStatus::Start.is_rolling());
    assert!(RotationStatus::Active.is_rolling());
    assert!(!RotationStatus::Inactive.is_rolling());
}

#[test]
fn ignores_responses_and_foreign_messages() {
    let p = [0u8; 16];
    assert_eq!(decode_message(&event(0, 5, p), 2, 6), None);
    assert_eq!(decode_message(&event(0, 0, p), 2, 9), None);
    assert_eq!(decode_message(&event(1, 0, p), 2, 6), None);
}

#[test]
fn short_messages_decode_with_a_zero_padded_payload() {
    let msg = v20::Message::Short(
        v20::MessageHeader {
            device_index: 2,
            feature_index: 6,
            function_id: U4::from_lo(0),
            software_id: U4::from_lo(0),
        },
        [0x00, 0x05, 0x00],
    );
    let decoded = decode_message(&msg, 2, 6).expect("event");
    assert_eq!(decoded.rotation, 5);
    assert_eq!(decoded.rotation_status, RotationStatus::Inactive);
}

#[test]
fn info_payload_and_reporting_requests_follow_the_wire_format() {
    let mut p = [0u8; 16];
    p[0..2].copy_from_slice(&20u16.to_be_bytes());
    p[2..4].copy_from_slice(&120u16.to_be_bytes());
    p[4] = 0x03;
    p[5] = 0x08;
    let info = info_from_payload(p);
    assert_eq!(info.resolution, WheelResolution { native_res: 20, diverted_res: 120 });
    assert_eq!(info.default_dir, 1);
    assert!(info.supports_single_tap);
    assert_eq!(&divert_params(WheelDirection::Inverted)[..3], &[1, 1, 0]);
    assert_eq!(&divert_params(WheelDirection::Default)[..3], &[1, 0, 0]);
    assert_eq!(undivert_params(), [0u8; 16]);
}

#[test]
fn decoding_header_fields_matches_decoding_the_message() {
    let mut p = [0u8; 16];
    p[0..2].copy_from_slice(&300i16.to_be_bytes());
    p[4] = 1;
    let header = HeaderFields { device_index: 2, feature_index: 6, function_id: 0, software_id: 0 };
    assert_eq!(decode_event(header, p, 2, 6), decode_message(&event(0, 0, p), 2, 6));
    assert_eq!(decode_event(header, p, 2, 6).expect("event").rotation, 300);
    assert_eq!(decode_event(HeaderFields { software_id: 3, ..header }, p, 2, 6), None);
    assert_eq!(decode_event(HeaderFields { function_id: 1, ..header }, p, 2, 6), None);
}

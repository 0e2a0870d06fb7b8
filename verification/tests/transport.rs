use openlogi::transport::{
    endpoint_for_report_id, normalize_collection_path, padded_report, report_lengths, short_companion, write_attempts,
    HidCollection, ReportEndpoint, WriteMethod, LONG_REPORT_ID, SHORT_REPORT_ID, VERY_LONG_REPORT_ID,
};

#[test]
fn short_and_long_collections_of_one_interface_share_a_grouping_key() {
    // Real Bolt receiver paths: the short (Col01) and long (Col02) HID++
    // collections of interface MI_02 must collapse to the same key.
    let short = normalize_collection_path(
        r"\\?\HID#VID_046D&PID_C548&MI_02&Col01#7&348660ac&0&0000#{4d1e55b2-f16f-11cf-88cb-001111000030}",
    );
    let long = normalize_collection_path(
        r"\\?\HID#VID_046D&PID_C548&MI_02&Col02#7&348660ac&0&0001#{4d1e55b2-f16f-11cf-88cb-001111000030}",
    );
    assert_eq!(short, long);
    assert_eq!(short, "vid_046d&pid_c548&mi_02#7&348660ac&0");
}

#[test]
fn distinct_interfaces_do_not_share_a_grouping_key() {
    let mi01 = normalize_collection_path(
        r"\\?\HID#VID_046D&PID_C548&MI_01&Col02#7&1cc2d467&0&0001#{4d1e55b2-f16f-11cf-88cb-001111000030}",
    );
    let mi02 = normalize_collection_path(
        r"\\?\HID#VID_046D&PID_C548&MI_02&Col02#7&348660ac&0&0001#{4d1e55b2-f16f-11cf-88cb-001111000030}",
    );
    assert_ne!(mi01, mi02);
}

#[test]
fn distinct_physical_receivers_do_not_share_a_grouping_key() {
    let recv_a = normalize_collection_path(
        r"\\?\HID#VID_046D&PID_C548&MI_02&Col01#7&348660ac&0&0000#{4d1e55b2-f16f-11cf-88cb-001111000030}",
    );
    let recv_b = normalize_collection_path(
        r"\\?\HID#VID_046D&PID_C548&MI_02&Col01#7&9f1be20c&0&0000#{4d1e55b2-f16f-11cf-88cb-001111000030}",
    );
    assert_ne!(recv_a, recv_b);

    let bolt = normalize_collection_path(
        r"\\?\HID#VID_046D&PID_C548&MI_02&Col02#7&348660ac&0&0001#{4d1e55b2-f16f-11cf-88cb-001111000030}",
    );
    let unifying = normalize_collection_path(
        r"\\?\HID#VID_046D&PID_C52B&MI_02&Col02#7&1a2b3c4d&0&0001#{4d1e55b2-f16f-11cf-88cb-001111000030}",
    );
    assert_ne!(bolt, unifying);
}

#[test]
fn unexpected_path_shapes_key_as_the_lowercased_path() {
    assert_eq!(normalize_collection_path("Only#Two"), "only#two");
    assert_eq!(normalize_collection_path("NoHash"), "nohash");
    assert_eq!(normalize_collection_path(""), "");
}

#[test]
fn instance_without_fields_is_kept_whole() {
    assert_eq!(normalize_collection_path(r"\\?\HID#A&Col01&B#inst#x"), "a&b#inst");
    assert_eq!(normalize_collection_path("x#Col01#a&b"), "#a");
}

#[test]
fn report_ids_pick_their_endpoint() {
    assert_eq!(endpoint_for_report_id(0x10), Some(ReportEndpoint::Short));
    assert_eq!(endpoint_for_report_id(0x11), Some(ReportEndpoint::Long));
    assert_eq!(endpoint_for_report_id(0x12), Some(ReportEndpoint::Long));
    assert_eq!(endpoint_for_report_id(0x20), None);
    assert_eq!(endpoint_for_report_id(0x00), None);
}

fn collection(page: u16, usage: u16, path: &str) -> HidCollection {
    HidCollection { usage_page: page, usage_id: usage, path: Some(path.to_string()) }
}

#[test]
fn the_short_sibling_of_the_same_interface_is_paired() {
    let long = r"\\?\HID#VID_046D&PID_C548&MI_02&Col02#7&348660ac&0&0001#{g}";
    let candidates = vec![
        collection(0xff00, 0x0001, r"\\?\HID#VID_046D&PID_C548&MI_02&Col01#7&9f1be20c&0&0000#{g}"),
        collection(0xff00, 0x0002, r"\\?\HID#VID_046D&PID_C548&MI_02&Col02#7&348660ac&0&0001#{g}"),
        HidCollection { usage_page: 0xff00, usage_id: 0x0001, path: None },
        collection(0xff00, 0x0001, r"\\?\HID#VID_046D&PID_C548&MI_02&Col01#7&348660ac&0&0000#{g}"),
    ];
    assert_eq!(short_companion(Some(long), &candidates), Some(3));
    assert_eq!(short_companion(None, &candidates), None);
    assert_eq!(short_companion(Some(long), &candidates[..3]), None);
}

#[test]
fn report_lengths_try_the_capability_length_then_the_report_length() {
    assert_eq!(report_lengths(20, 20), vec![20]);
    assert_eq!(report_lengths(7, 20), vec![20, 7]);
    assert_eq!(report_lengths(20, 7), vec![20]);
    assert_eq!(report_lengths(7, 0), vec![7]);
    assert_eq!(report_lengths(0, 0), Vec::<usize>::new());
}

#[test]
fn reports_are_zero_padded_to_the_buffer_length() {
    assert_eq!(padded_report(&[0x10, 0xff], 4), vec![0x10, 0xff, 0, 0]);
    assert_eq!(padded_report(&[0x11], 1), vec![0x11]);
}

#[test]
fn native_writes_try_output_reports_before_feature_reports() {
    assert_eq!(
        write_attempts(7, 20, 0),
        vec![
            (WriteMethod::WriteFile, 20),
            (WriteMethod::SetOutputReport, 20),
            (WriteMethod::WriteFile, 7),
            (WriteMethod::SetOutputReport, 7),
            (WriteMethod::SetFeature, 7),
        ]
    );
    assert_eq!(
        write_attempts(20, 20, 20),
        vec![(WriteMethod::WriteFile, 20), (WriteMethod::SetOutputReport, 20), (WriteMethod::SetFeature, 20)]
    );
}

#[test]
fn report_ids_select_their_windows_endpoint() {
    assert_eq!(endpoint_for_report_id(SHORT_REPORT_ID), Some(ReportEndpoint::Short));
    assert_eq!(endpoint_for_report_id(LONG_REPORT_ID), Some(ReportEndpoint::Long));
    assert_eq!(endpoint_for_report_id(VERY_LONG_REPORT_ID), Some(ReportEndpoint::Long));
    assert_eq!(endpoint_for_report_id(0x13), None);
}

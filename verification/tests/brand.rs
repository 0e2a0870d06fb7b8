use openlogi::brand::{
    dev_id, is_dev_id, is_openlogi_foreground_id, release_tag_url, DeeplinkCommand, AGENT_ID, APP_ID,
    OVERLAY_ID,
};

const ALL: [DeeplinkCommand; 5] = [
    DeeplinkCommand::Show,
    DeeplinkCommand::OpenSettings,
    DeeplinkCommand::OpenAbout,
    DeeplinkCommand::CheckForUpdates,
    DeeplinkCommand::Quit,
];

#[test]
fn url_round_trips() {
    for cmd in ALL {
        assert_eq!(DeeplinkCommand::parse_url(&cmd.to_url()), Some(cmd));
        assert_eq!(DeeplinkCommand::from_name(cmd.as_name()), Some(cmd));
    }
    assert_eq!(DeeplinkCommand::Quit.to_url(), "openlogi://quit");
}

#[test]
fn parse_url_ignores_trailing_path_and_query() {
    assert_eq!(DeeplinkCommand::parse_url("openlogi://show/"), Some(DeeplinkCommand::Show));
    assert_eq!(
        DeeplinkCommand::parse_url("openlogi://open-settings?from=tray"),
        Some(DeeplinkCommand::OpenSettings)
    );
}

#[test]
fn parse_url_rejects_foreign_scheme_and_unknown_command() {
    assert_eq!(DeeplinkCommand::parse_url("https://example.com/show"), None);
    assert_eq!(DeeplinkCommand::parse_url("openlogi://bogus"), None);
    assert_eq!(DeeplinkCommand::parse_url("openlogi://"), None);
}

#[test]
fn dev_ids_round_trip() {
    for id in [APP_ID, AGENT_ID, OVERLAY_ID] {
        assert!(is_dev_id(&dev_id(id)), "{id} suffixed must read as dev");
        assert!(!is_dev_id(id), "{id} is production");
    }
}

#[test]
fn the_legacy_dotted_suffix_still_reads_as_dev() {
    assert!(is_dev_id("org.openlogi.agent.dev"));
    assert!(is_dev_id("org.openlogi.openlogi.dev"));
}

#[test]
fn a_bare_suffix_is_not_a_dev_id() {
    assert!(!is_dev_id("-dev"));
    assert!(!is_dev_id(".dev"));
    assert!(!is_dev_id(""));
}

#[test]
fn matching_ignores_case_but_not_position() {
    assert!(is_dev_id("org.openlogi.agent-DEV"));
    assert!(!is_dev_id("org.openlogi.dev-agent"));
}

#[test]
fn our_own_processes_are_recognised_in_both_identifier_shapes() {
    for id in [APP_ID, AGENT_ID, OVERLAY_ID] {
        assert!(is_openlogi_foreground_id(id), "{id}");
        assert!(is_openlogi_foreground_id(&dev_id(id)), "dev {id}");
    }
    assert!(is_openlogi_foreground_id(r"c:\program files\openlogi\openlogi.exe"));
    assert!(is_openlogi_foreground_id(r"c:\program files\openlogi\openlogi-agent.exe"));
    assert!(is_openlogi_foreground_id(r"c:\src\openlogi\target\debug\openlogi-desktop.exe"));
}

#[test]
fn a_foreign_app_that_merely_starts_the_same_way_is_not_ours() {
    assert!(!is_openlogi_foreground_id("org.openlogi.openlogi.helper"));
    assert!(!is_openlogi_foreground_id(r"c:\apps\openlogic.exe"));
    assert!(!is_openlogi_foreground_id("com.apple.Safari"));
    assert!(!is_openlogi_foreground_id(""));
}

#[test]
fn release_tags_link_to_the_repository() {
    assert_eq!(
        release_tag_url("1.2.3"),
        "https://github.com/AprilNEA/OpenLogi/releases/tag/v1.2.3"
    );
    assert!(is_openlogi_foreground_id("/opt/OpenLogi/OPENLOGI-OVERLAY.EXE"));
}

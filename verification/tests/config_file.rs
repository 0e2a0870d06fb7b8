use openlogi::config::file::{
    backup_rotation, check_schema_version, config_backup_path, migration_backup_path, migrations_for,
    reject_obsolete_fields, BackupLedger, ConfigError, ConfigFile, DeviceTable, SaveAction, SaveEvent, SaveStage,
    SCHEMA_VERSION,
};

fn table(key: &str, fields: &[&str]) -> DeviceTable {
    DeviceTable { key: key.to_string(), fields: Some(fields.iter().map(|f| f.to_string()).collect()) }
}

#[test]
fn schema_versions_outside_the_supported_range_are_rejected() {
    assert!(check_schema_version("/c/config.toml", 1).is_ok());
    assert!(check_schema_version("/c/config.toml", SCHEMA_VERSION).is_ok());
    let err = check_schema_version("/c/config.toml", 0).unwrap_err();
    assert_eq!(err.to_string(), "config at /c/config.toml has unsupported schema_version 0");
    let err = check_schema_version("/c/config.toml", SCHEMA_VERSION + 1).unwrap_err();
    assert!(matches!(err, ConfigError::UnsupportedSchemaVersion { found, .. } if found == SCHEMA_VERSION + 1));
}

#[test]
fn older_schemas_get_every_later_migration() {
    let v3 = migrations_for(3);
    assert!(v3.owner_locked_gestures && v3.transport_scoped_keys && v3.thumbwheel_native_direction);
    let v5 = migrations_for(5);
    assert!(!v5.owner_locked_gestures && !v5.transport_scoped_keys && v5.thumbwheel_native_direction);
    let current = migrations_for(SCHEMA_VERSION);
    assert!(!current.owner_locked_gestures && !current.transport_scoped_keys && !current.thumbwheel_native_direction);
}

#[test]
fn obsolete_fields_are_rejected_only_after_their_last_schema() {
    let devices = vec![table("mouse", &["dpi"]), table("kbd", &["gesture_owner", "button_bindings"])];
    assert!(reject_obsolete_fields("/c/config.toml", &devices, 1).is_ok());
    let err = reject_obsolete_fields("/c/config.toml", &devices, 2).unwrap_err();
    assert_eq!(
        err.to_string(),
        "config at /c/config.toml uses obsolete field devices.kbd.button_bindings with schema_version 2"
    );
    let owner_only = vec![table("kbd", &["gesture_owner"]), DeviceTable { key: "x".into(), fields: None }];
    assert!(reject_obsolete_fields("/c/config.toml", &owner_only, 3).is_ok());
    let err = reject_obsolete_fields("/c/config.toml", &owner_only, 4).unwrap_err();
    assert!(matches!(err, ConfigError::ObsoleteField { ref field, version: 4, .. } if field == "devices.kbd.gesture_owner"));
}

#[test]
fn backup_paths_append_to_the_file_name() {
    assert_eq!(migration_backup_path("/home/u/.config/openlogi/config.toml", 4).unwrap(), "/home/u/.config/openlogi/config.toml.v4.bak");
    assert_eq!(config_backup_path("/home/u/config.toml", 2).unwrap(), "/home/u/config.toml.backup.2");
    assert_eq!(migration_backup_path("/", 4).unwrap_err(), "config path has no file name");
    assert_eq!(backup_rotation(), vec![(4, 5), (3, 4), (2, 3), (1, 2), (0, 1)]);
}

#[test]
fn each_path_is_backed_up_once() {
    let mut ledger = BackupLedger::new();
    assert!(ledger.needs_backup("/a/config.toml"));
    ledger.mark("/a/config.toml");
    assert!(!ledger.needs_backup("/a/config.toml"));
    assert!(ledger.needs_backup("/b/config.toml"));
}

#[test]
fn a_concurrent_edit_is_a_conflict_and_nothing_is_written() {
    let mut file = ConfigFile::loaded("/c/config.toml".into(), Some("a = 1\n".into()), SCHEMA_VERSION);
    let (stage, action) = file.begin_save("schema_version = 7\n".into());
    assert!(matches!(action, SaveAction::ReadCurrent));
    let (stage, action) = file.save_step(stage, SaveEvent::CurrentRead(Ok(Some("a = 2\n".into()))));
    assert!(matches!(stage, SaveStage::Finished));
    match action {
        SaveAction::Finish(Err(err)) => assert_eq!(
            err.to_string(),
            "config at /c/config.toml changed on disk; restart OpenLogi to reload it"
        ),
        other => panic!("expected a conflict, got {other:?}"),
    }
    assert_eq!(file.source(), Some("a = 1\n"));
}

#[test]
fn a_migrated_file_is_copied_aside_before_its_first_successful_save() {
    let old = "schema_version = 4\n";
    let mut file = ConfigFile::loaded("/c/config.toml".into(), Some(old.into()), 4);
    let (stage, _) = file.begin_save("schema_version = 7\n".into());
    let (stage, action) = file.save_step(stage, SaveEvent::CurrentRead(Ok(Some(old.into()))));
    match &action {
        SaveAction::WriteMigrationBackup { path, contents } => {
            assert_eq!(path, "/c/config.toml.v4.bak");
            assert_eq!(contents, old);
        }
        other => panic!("expected the migration copy, got {other:?}"),
    }
    let (stage, action) = file.save_step(stage, SaveEvent::MigrationBackupWritten(Ok(())));
    assert!(matches!(action, SaveAction::CreateParent));
    let (stage, action) = file.save_step(stage, SaveEvent::ParentCreated(Ok(())));
    assert!(matches!(action, SaveAction::BackupOnce));
    let (stage, action) = file.save_step(stage, SaveEvent::BackedUp(Ok(())));
    assert!(matches!(action, SaveAction::WriteConfig { ref body } if body == "schema_version = 7\n"));
    let (stage, action) = file.save_step(stage, SaveEvent::ConfigWritten(Ok(())));
    assert!(matches!(stage, SaveStage::Finished));
    assert!(matches!(action, SaveAction::Finish(Ok(()))));
    assert_eq!(file.source(), Some("schema_version = 7\n"));

    // The debt is settled: the next save goes straight to writing.
    let (stage, _) = file.begin_save("schema_version = 7\n".into());
    let (_, action) = file.save_step(stage, SaveEvent::CurrentRead(Ok(Some("schema_version = 7\n".into()))));
    assert!(matches!(action, SaveAction::CreateParent));
}

#[test]
fn a_failed_write_still_owes_the_migration_copy() {
    let old = "schema_version = 2\n";
    let mut file = ConfigFile::loaded("/c/config.toml".into(), Some(old.into()), 2);
    let (stage, _) = file.begin_save("schema_version = 7\n".into());
    let (stage, _) = file.save_step(stage, SaveEvent::CurrentRead(Ok(Some(old.into()))));
    let (stage, _) = file.save_step(stage, SaveEvent::MigrationBackupWritten(Ok(())));
    let (stage, _) = file.save_step(stage, SaveEvent::ParentCreated(Ok(())));
    let (stage, _) = file.save_step(stage, SaveEvent::BackedUp(Ok(())));
    let (_, action) = file.save_step(stage, SaveEvent::ConfigWritten(Err("disk full".into())));
    match action {
        SaveAction::Finish(Err(err)) => assert_eq!(err.to_string(), "could not write config at /c/config.toml: disk full"),
        other => panic!("expected a write error, got {other:?}"),
    }
    let (stage, _) = file.begin_save("schema_version = 7\n".into());
    let (_, action) = file.save_step(stage, SaveEvent::CurrentRead(Ok(Some(old.into()))));
    assert!(matches!(action, SaveAction::WriteMigrationBackup { .. }));
}

#[test]
fn a_missing_file_saves_without_a_copy() {
    let mut file = ConfigFile::loaded("/c/config.toml".into(), None, SCHEMA_VERSION);
    let (stage, _) = file.begin_save("schema_version = 7\n".into());
    let (_, action) = file.save_step(stage, SaveEvent::CurrentRead(Ok(None)));
    assert!(matches!(action, SaveAction::CreateParent));
    let (stage, _) = file.begin_save("schema_version = 7\n".into());
    let (_, action) = file.save_step(stage, SaveEvent::CurrentRead(Err("permission denied".into())));
    match action {
        SaveAction::Finish(Err(err)) => assert_eq!(err.to_string(), "could not read config at /c/config.toml: permission denied"),
        other => panic!("expected a read error, got {other:?}"),
    }
}

#[test]
fn bare_file_names_get_their_backup_names_beside_them() {
    assert_eq!(migration_backup_path("config.toml", 4).unwrap(), "config.toml.v4.bak");
    assert_eq!(config_backup_path("config.toml", 12).unwrap(), "config.toml.backup.12");
    assert_eq!(config_backup_path("..", 1).unwrap_err(), "config path has no file name");
    assert_eq!(migration_backup_path("", 1).unwrap_err(), "config path has no file name");
}

#[test]
fn loaded_text_is_checked_against_its_declared_schema() {
    let ok = openlogi::config::file::check_loaded("c.toml", "schema_version = 7\n[devices.a]\nname = 1\n", 7)
        .expect("a current file loads");
    assert_eq!(ok.path(), "c.toml");
    assert_eq!(ok.source(), Some("schema_version = 7\n[devices.a]\nname = 1\n"));

    let obsolete = "schema_version = 4\n[devices.mouse]\ngesture_owner = 1\n";
    assert!(matches!(
        openlogi::config::file::check_loaded("c.toml", obsolete, 4),
        Err(ConfigError::ObsoleteField { ref field, version: 4, .. }) if field == "devices.mouse.gesture_owner"
    ));
    assert!(openlogi::config::file::check_loaded("c.toml", obsolete, 3).is_ok());
    assert!(matches!(
        openlogi::config::file::check_loaded("c.toml", "schema_version = = 7", 7),
        Err(ConfigError::Parse { .. })
    ));
    assert!(matches!(
        openlogi::config::file::check_loaded("c.toml", "schema_version = 0", 0),
        Err(ConfigError::UnsupportedSchemaVersion { found: 0, .. })
    ));
}

#[test]
fn a_save_keeps_the_comments_of_surviving_keys() {
    let old = "# mine\nschema_version = 7 # current\nstale = 1\n";
    let mut file = ConfigFile::loaded("/c/config.toml".into(), Some(old.into()), SCHEMA_VERSION);
    let (stage, _) = file.begin_save("schema_version = 8\n".into());
    let (stage, _) = file.save_step(stage, SaveEvent::CurrentRead(Ok(Some(old.into()))));
    let (stage, action) = file.save_step(stage, SaveEvent::ParentCreated(Ok(())));
    assert!(matches!(action, SaveAction::BackupOnce));
    let (_, action) = file.save_step(stage, SaveEvent::BackedUp(Ok(())));
    assert!(matches!(action, SaveAction::WriteConfig { ref body } if body == "# mine\nschema_version = 8 # current\n"));
}

#[test]
fn a_save_over_unparsable_text_is_an_edit_error() {
    let old = "a = = 1\n";
    let mut file = ConfigFile::loaded("/c/config.toml".into(), Some(old.into()), SCHEMA_VERSION);
    let (stage, _) = file.begin_save("schema_version = 8\n".into());
    let (stage, _) = file.save_step(stage, SaveEvent::CurrentRead(Ok(Some(old.into()))));
    let (stage, action) = file.save_step(stage, SaveEvent::ParentCreated(Ok(())));
    assert!(matches!(stage, SaveStage::Finished));
    assert!(matches!(action, SaveAction::Finish(Err(ConfigError::Edit { ref path, .. })) if path == "/c/config.toml"));
}

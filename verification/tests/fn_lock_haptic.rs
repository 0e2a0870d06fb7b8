use openlogi::device_io::DeviceIoState;
use openlogi::hid::error::{HidppFeatureErrorKind, HidppOperation, WriteError};
use openlogi::write::error::HidppErrorParts;
use openlogi::write::fn_lock::{is_missing_multi_host, FnInversionFeature, FnLockAction, FnLockEvent, FnLockStage, FnLockWrite};
use openlogi::write::haptic::{begin_play, haptic_repair, play_step, FeatureLocation, HapticCache, PlayAction, PlayEvent, PlayStage};

#[test]
fn fn_lock_falls_back_to_single_host_only_when_multi_host_is_missing() {
    assert!(is_missing_multi_host(&WriteError::FeatureUnsupported { feature_hex: 0x40a3 }));
    assert!(!is_missing_multi_host(&WriteError::FeatureUnsupported { feature_hex: 0x40a2 }));

    let (write, _) = FnLockWrite::new(1);
    let (write, action) = write.step(FnLockEvent::Connected(true));
    assert!(matches!(action, FnLockAction::Open(FnInversionFeature::MultiHost)));
    let (write, action) = write.step(FnLockEvent::Opened(Err(WriteError::FeatureUnsupported { feature_hex: 0x40a3 })));
    assert!(matches!(action, FnLockAction::Open(FnInversionFeature::SingleHost)));
    let (write, action) = write.step(FnLockEvent::Opened(Ok(())));
    assert!(matches!(action, FnLockAction::Write(FnInversionFeature::SingleHost)));
    let (write, action) = write.step(FnLockEvent::Written(Err(HidppErrorParts::Feature(8))));
    assert_eq!(write.stage, FnLockStage::Finished);
    assert!(matches!(
        action,
        FnLockAction::Finish(Err(WriteError::HidppFeature {
            operation: HidppOperation::WriteFnLock,
            feature_hex: 0x40a2,
            kind: HidppFeatureErrorKind::Busy,
        }))
    ));

    let (write, _) = FnLockWrite::new(1);
    let (write, _) = write.step(FnLockEvent::Connected(true));
    let (_, action) = write.step(FnLockEvent::Opened(Err(WriteError::DeviceNotFound)));
    assert!(matches!(action, FnLockAction::Finish(Err(WriteError::DeviceNotFound))));
}

#[test]
fn haptic_engine_is_armed_only_when_needed() {
    assert_eq!(haptic_repair(true, 60), None);
    assert_eq!(haptic_repair(false, 60), Some(60));
    assert_eq!(haptic_repair(true, 0), Some(25));
    assert_eq!(haptic_repair(false, 0), Some(25));
}

#[test]
fn the_cache_matches_exactly_the_channel_it_was_stored_for() {
    let mut cache = HapticCache::new();
    cache.store(2, 7);
    assert_eq!(cache.lookup(true, 2), Some(7), "the stored channel at the stored index is a hit");
    assert_eq!(cache.lookup(true, 3), None, "another device index is a miss");
    assert_eq!(cache.lookup(false, 2), None, "another channel is a miss");
    cache.clear();
    assert_eq!(cache.lookup(true, 2), None);
}

#[test]
fn a_failed_cached_play_is_retried_through_a_fresh_lookup() {
    let mut cache = HapticCache::new();
    cache.store(2, 7);
    let (stage, action) = begin_play(&cache, true, 2);
    assert!(matches!(action, PlayAction::PlayCached(7)));
    let (stage, action) = play_step(&mut cache, 2, stage, PlayEvent::CachedPlayed(false));
    assert!(matches!(action, PlayAction::OpenFeature));
    assert_eq!(cache.location, None);
    let (stage, action) = play_step(&mut cache, 2, stage, PlayEvent::Opened(Ok(9)));
    assert!(matches!(action, PlayAction::PlayFresh));
    let (stage, action) = play_step(&mut cache, 2, stage, PlayEvent::FreshPlayed(Ok(())));
    assert_eq!(stage, PlayStage::Finished);
    assert!(matches!(action, PlayAction::Finish(Ok(()))));
    assert_eq!(cache.location, Some(FeatureLocation { device_index: 2, feature_index: 9 }));
}

#[test]
fn latest_transition_is_retained_and_duplicates_coalesce() {
    let mut gate = DeviceIoState::Allowed;
    assert!(gate.allows_io());
    assert!(gate.suspend());
    assert!(!gate.suspend());
    assert!(!gate.allows_io());
    assert!(gate.resume());
    assert!(!gate.resume());
    assert!(gate.allows_io());
}

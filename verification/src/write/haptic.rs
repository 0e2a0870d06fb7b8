//! Haptic feedback: arming the firmware engine and playing waveforms through
//! a cached feature location.
//!
//! A play is fired per hover, so the feature location (device index and
//! feature index on one channel) is cached: a play through the cache costs
//! one round trip. Any failure through the cache forgets it and the play is
//! retried once through a fresh lookup, which is remembered when it works.

use vstd::prelude::*;

use crate::hid::error::WriteError;

verus! {

/// The intensity the engine is armed with when it reports none.
pub const DEFAULT_INTENSITY: u8 = 25;

/// The configuration write that arms the haptic engine, if one is needed:
/// the engine must be enabled with a non-zero intensity; a zero intensity
/// is repaired to the default, and a configuration already enabled with a
/// non-zero intensity needs no write.
pub fn haptic_repair(enabled: bool, intensity: u8) -> (write: Option<u8>)
    ensures
        write == (if enabled && intensity != 0 {
            None
        } else if intensity == 0 {
            Some(DEFAULT_INTENSITY)
        } else {
            Some(intensity)
        }),
{
    let repaired = if intensity == 0 { DEFAULT_INTENSITY } else { intensity };
    if enabled && repaired == intensity {
        None
    } else {
        Some(repaired)
    }
}

/// Where the haptic feature was last found: a device index and feature
/// index on one channel.
#[derive(Debug, Clone, Copy, PartialEq, Eq, Structural)]
pub struct FeatureLocation {
    /// HID++ device index.
    pub device_index: u8,
    /// Runtime index of the haptic feature.
    pub feature_index: u8,
}

/// The one cached haptic feature location; haptics come from one pointing
/// device at a time. Whether the cached channel is still the live channel a
/// play asks for is the caller's to tell: channel identity is not a value.
#[derive(Debug, Clone, Copy, PartialEq, Eq, Structural)]
pub struct HapticCache {
    /// The cached location, if any.
    pub location: Option<FeatureLocation>,
}

impl HapticCache {
    /// An empty cache.
    pub fn new() -> (c: Self)
        ensures
            c.location is None,
    {
        HapticCache { location: None }
    }

    /// The cached feature index for device `index` on a channel, when the
    /// cache holds that channel (`same_channel`) at that index.
    pub fn lookup(&self, same_channel: bool, index: u8) -> (f: Option<u8>)
        ensures
            f == (match self.location {
                Some(l) => if same_channel && l.device_index == index { Some(l.feature_index) } else { None },
                None => None::<u8>,
            }),
    {
        match self.location {
            Some(l) => if same_channel && l.device_index == index { Some(l.feature_index) } else { None },
            None => None,
        }
    }

    /// Remember where a successful open found the feature.
    pub fn store(&mut self, device_index: u8, feature_index: u8)
        ensures
            final(self).location == Some(FeatureLocation { device_index, feature_index }),
    {
        self.location = Some(FeatureLocation { device_index, feature_index });
    }

    /// Forget the cached location.
    pub fn clear(&mut self)
        ensures
            final(self).location is None,
    {
        self.location = None;
    }
}

/// The next piece of device work a play asks for.
#[derive(Debug)]
pub enum PlayAction {
    /// Play through the cached feature index.
    PlayCached(u8),
    /// Look up the haptic feature afresh.
    OpenFeature,
    /// Play through the freshly found feature.
    PlayFresh,
    /// The play is over, with this result.
    Finish(Result<(), WriteError>),
}

/// The outcome of the device work last asked for.
#[derive(Debug)]
pub enum PlayEvent {
    /// Whether the play through the cache worked.
    CachedPlayed(bool),
    /// The feature index found afresh, or the failure.
    Opened(Result<u8, WriteError>),
    /// The result of the fresh play.
    FreshPlayed(Result<(), WriteError>),
}

/// Where a play stands.
#[derive(Debug, Clone, Copy, PartialEq, Eq, Structural)]
pub enum PlayStage {
    /// Playing through the cache.
    PlayingCached,
    /// Looking the feature up.
    Opening,
    /// Playing through the feature found at this index.
    PlayingFresh(u8),
    /// Done.
    Finished,
}

/// Whether a play in `stage` waits for `event`.
pub open spec fn play_expects(stage: PlayStage, event: PlayEvent) -> bool {
    match stage {
        PlayStage::PlayingCached => event is CachedPlayed,
        PlayStage::Opening => event is Opened,
        PlayStage::PlayingFresh(_) => event is FreshPlayed,
        PlayStage::Finished => false,
    }
}

/// Start a play on device `index`: through the cache when it holds this
/// channel and index, else by looking the feature up.
pub fn begin_play(cache: &HapticCache, same_channel: bool, index: u8) -> (r: (PlayStage, PlayAction))
    ensures
        match cache.lookup_spec(same_channel, index) {
            Some(f) => r.0 is PlayingCached && r.1 == PlayAction::PlayCached(f),
            None => r.0 is Opening && r.1 is OpenFeature,
        },
{
    match cache.lookup(same_channel, index) {
        Some(f) => (PlayStage::PlayingCached, PlayAction::PlayCached(f)),
        None => (PlayStage::Opening, PlayAction::OpenFeature),
    }
}

impl HapticCache {
    /// The cached feature index for device `index` on a channel.
    pub open spec fn lookup_spec(self, same_channel: bool, index: u8) -> Option<u8> {
        match self.location {
            Some(l) => if same_channel && l.device_index == index { Some(l.feature_index) } else { None },
            None => None,
        }
    }
}

/// One step of a play on device `index`: a failed cached play forgets the
/// cache and looks the feature up afresh; a fresh play that works is
/// remembered.
pub fn play_step(cache: &mut HapticCache, index: u8, stage: PlayStage, event: PlayEvent) -> (r: (PlayStage, PlayAction))
    requires
        play_expects(stage, event),
    ensures
        match (stage, event) {
            (PlayStage::PlayingCached, PlayEvent::CachedPlayed(ok)) => if ok {
                r.0 is Finished && r.1 == PlayAction::Finish(Ok(())) && *final(cache) == *old(cache)
            } else {
                r.0 is Opening && r.1 is OpenFeature && final(cache).location is None
            },
            (PlayStage::Opening, PlayEvent::Opened(result)) => *final(cache) == *old(cache) && match result {
                Ok(f) => r.0 == PlayStage::PlayingFresh(f) && r.1 is PlayFresh,
                Err(e) => r.0 is Finished && r.1 == PlayAction::Finish(Err(e)),
            },
            (PlayStage::PlayingFresh(f), PlayEvent::FreshPlayed(result)) => r.0 is Finished && match result {
                Ok(()) => r.1 == PlayAction::Finish(Ok(()))
                    && final(cache).location == Some(FeatureLocation { device_index: index, feature_index: f }),
                Err(e) => r.1 == PlayAction::Finish(Err(e)) && *final(cache) == *old(cache),
            },
            _ => true,
        },
{
    match (stage, event) {
        (PlayStage::PlayingCached, PlayEvent::CachedPlayed(ok)) => if ok {
            (PlayStage::Finished, PlayAction::Finish(Ok(())))
        } else {
            cache.clear();
            (PlayStage::Opening, PlayAction::OpenFeature)
        },
        (PlayStage::Opening, PlayEvent::Opened(result)) => match result {
            Ok(f) => (PlayStage::PlayingFresh(f), PlayAction::PlayFresh),
            Err(e) => (PlayStage::Finished, PlayAction::Finish(Err(e))),
        },
        (PlayStage::PlayingFresh(f), PlayEvent::FreshPlayed(result)) => match result {
            Ok(()) => {
                cache.store(index, f);
                (PlayStage::Finished, PlayAction::Finish(Ok(())))
            },
            Err(e) => (PlayStage::Finished, PlayAction::Finish(Err(e))),
        },
        (stage, _) => (stage, PlayAction::OpenFeature),
    }
}

} // verus!

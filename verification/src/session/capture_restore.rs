//! Firmware ownership and its release for mouse and keyboard capture.
//!
//! Capture diverts controls (and the thumb wheel) to software. Whatever it
//! armed must be handed back before a successor arms the same device; a
//! hand-back that could not complete is kept as a pending restore and
//! retried on the channel inventory currently publishes for the route, never
//! underneath a replacement the inventory already declared.

use vstd::prelude::*;

use crate::backend::{backend_error_message, BackendError};
use crate::hid::route::DeviceRoute;
use crate::reprog_controls::{CidReporting, CidReportingChange};
use crate::text::{hex2, push_hex2, push_str};

verus! {

/// Why a capture session could not start (or had to stop).
#[derive(Debug, Clone)]
pub enum GestureError {
    /// HID transport-level failure while enumerating or opening the device.
    Hid(BackendError),
    /// No connected device matched the capture route.
    DeviceNotFound,
    /// The device at the target index did not answer HID++.
    DeviceUnreachable(u8),
    /// A HID++ feature call returned an error; the text carries context.
    Hidpp(String),
}

/// The message a gesture error is shown with.
pub open spec fn gesture_error_message(e: GestureError) -> Seq<char> {
    match e {
        GestureError::Hid(_) => "HID transport error"@,
        GestureError::DeviceNotFound => "no connected device matched the capture route"@,
        GestureError::DeviceUnreachable(index) => "device at index 0x"@ + hex2(index) + " did not respond to HID++"@,
        GestureError::Hidpp(text) => "HID++ protocol error: "@ + text@,
    }
}

impl GestureError {
    /// The human-readable message of this error.
    pub fn to_string(&self) -> (s: String)
        ensures
            s@ == gesture_error_message(*self),
    {
        let mut s = String::new();
        match self {
            GestureError::Hid(_) => push_str(&mut s, "HID transport error"),
            GestureError::DeviceNotFound => push_str(&mut s, "no connected device matched the capture route"),
            GestureError::DeviceUnreachable(index) => {
                push_str(&mut s, "device at index 0x");
                push_hex2(&mut s, *index);
                push_str(&mut s, " did not respond to HID++");
            },
            GestureError::Hidpp(text) => {
                push_str(&mut s, "HID++ protocol error: ");
                push_str(&mut s, text.as_str());
            },
        }
        s
    }
}

impl From<BackendError> for GestureError {
    fn from(error: BackendError) -> (e: Self) {
        GestureError::Hid(error)
    }
}

impl vstd::std_specs::convert::FromSpecImpl<BackendError> for GestureError {
    open spec fn obeys_from_spec() -> bool {
        true
    }

    open spec fn from_spec(v: BackendError) -> Self {
        GestureError::Hid(v)
    }
}

/// One reprogrammable control whose original reporting state restores a
/// failed or completed capture.
#[derive(Debug, Clone, Copy, PartialEq, Eq, Structural)]
pub struct ArmedReporting {
    /// The control ID.
    pub cid: u16,
    /// Its reporting state before capture.
    pub original: CidReporting,
}

/// A non-empty set of reprogrammable controls owned through one feature
/// index.
#[derive(Debug, Clone)]
pub struct ReprogRestore {
    /// Runtime index of the reprogrammable-controls feature.
    pub feature_index: u8,
    /// The controls to hand back.
    pub controls: Vec<ArmedReporting>,
}

impl ReprogRestore {
    /// The restore set, or `None` when there is nothing to restore.
    pub fn new(feature_index: u8, controls: Vec<ArmedReporting>) -> (r: Option<Self>)
        ensures
            controls@.len() == 0 <==> r is None,
            r matches Some(x) ==> x.feature_index == feature_index && x.controls@ == controls@,
    {
        if controls.len() == 0 {
            None
        } else {
            Some(ReprogRestore { feature_index, controls })
        }
    }
}

/// Why an active capture stopped.
#[derive(Debug, Clone, Copy, PartialEq, Eq, Structural)]
pub enum CaptureStop {
    /// The owner deliberately requested teardown.
    Shutdown,
    /// Inventory removed or replaced the channel that armed capture.
    ChannelChanged,
}

/// Whether a retry may use the transport capture originally ran on.
#[derive(Debug, Clone, Copy, PartialEq, Eq, Structural)]
pub enum RetiredChannelPolicy {
    /// Inventory declared the transport obsolete: wait for another current
    /// publication instead of writing underneath its replacement.
    ReplacementOnly,
    /// Capture stopped normally but a restore write failed, so retrying the
    /// still-current original transport is safe.
    CurrentAllowed,
}

/// Firmware ownership that survives the transport which armed it.
#[derive(Debug, Clone)]
pub struct PendingCaptureRestore {
    /// The route capture ran on.
    pub route: DeviceRoute,
    /// Whether the original transport may be written.
    pub retired_policy: RetiredChannelPolicy,
    /// Diverted controls to hand back.
    pub reprog: Option<ReprogRestore>,
    /// Runtime index of the thumb wheel feature, when it was diverted.
    pub thumb_index: Option<u8>,
}

/// How a capture session completed its firmware teardown.
#[derive(Debug)]
pub enum CaptureSessionOutcome {
    /// Every diverted control was restored.
    Restored,
    /// Restoration is incomplete; the token must be kept and retried before
    /// arming a successor for the same device.
    RestorePending(PendingCaptureRestore),
}

/// What a retry does with the channel currently published for the route.
#[derive(Debug, Clone, Copy, PartialEq, Eq, Structural)]
pub enum RetryStep {
    /// Keep the token pending: there is no publication, or only the retired
    /// transport the policy forbids.
    KeepPending,
    /// Restore through the published channel.
    Restore,
}

impl PendingCaptureRestore {
    /// A pending restore for what capture armed on `route`, or `None` when
    /// it armed nothing; it starts out forbidding the retired transport.
    pub fn new(route: DeviceRoute, reprog: Option<ReprogRestore>, thumb_index: Option<u8>) -> (r: Option<Self>)
        ensures
            (reprog is None && thumb_index is None) <==> r is None,
            r matches Some(p) ==> p.route == route && p.reprog == reprog && p.thumb_index == thumb_index
                && p.retired_policy == RetiredChannelPolicy::ReplacementOnly,
    {
        if reprog.is_none() && thumb_index.is_none() {
            return None;
        }
        Some(PendingCaptureRestore { route, retired_policy: RetiredChannelPolicy::ReplacementOnly, reprog, thumb_index })
    }

    /// Permit a retry on the original channel after a normal teardown write
    /// failed while that publication was still current.
    pub fn allow_current_channel(self) -> (r: Self)
        ensures
            r == (PendingCaptureRestore { retired_policy: RetiredChannelPolicy::CurrentAllowed, ..self }),
    {
        PendingCaptureRestore { retired_policy: RetiredChannelPolicy::CurrentAllowed, ..self }
    }

    /// Whether a retry restores now, given whether inventory publishes a
    /// channel for the route and whether that channel is the retired one.
    pub fn retry_step(&self, published: bool, published_is_retired: bool) -> (s: RetryStep)
        ensures
            s == (if !published || (self.retired_policy == RetiredChannelPolicy::ReplacementOnly && published_is_retired) {
                RetryStep::KeepPending
            } else {
                RetryStep::Restore
            }),
    {
        if !published {
            return RetryStep::KeepPending;
        }
        if self.retired_policy == RetiredChannelPolicy::ReplacementOnly && published_is_retired {
            return RetryStep::KeepPending;
        }
        RetryStep::Restore
    }

    /// The outcome of a restore through a published channel: complete only
    /// when every write succeeded and that publication is still current.
    pub fn finish_retry(self, restored: bool, still_current: bool) -> (o: CaptureSessionOutcome)
        ensures
            (restored && still_current) <==> o is Restored,
            o matches CaptureSessionOutcome::RestorePending(p) ==> p == self,
    {
        if restored && still_current {
            CaptureSessionOutcome::Restored
        } else {
            CaptureSessionOutcome::RestorePending(self)
        }
    }

    /// The outcome of a restore on a standalone channel, which no
    /// publication can supersede.
    pub fn finish_standalone(self, restored: bool) -> (o: CaptureSessionOutcome)
        ensures
            restored <==> o is Restored,
            o matches CaptureSessionOutcome::RestorePending(p) ==> p == self,
    {
        if restored {
            CaptureSessionOutcome::Restored
        } else {
            CaptureSessionOutcome::RestorePending(self)
        }
    }
}

/// A capture setup failure plus any firmware ownership its rollback could
/// not release.
#[derive(Debug)]
pub struct CaptureSessionFailure {
    error: GestureError,
    pending_restore: Option<PendingCaptureRestore>,
}

impl CaptureSessionFailure {
    /// The setup error.
    pub closed spec fn spec_error(self) -> GestureError {
        self.error
    }

    /// The ownership still held.
    pub closed spec fn spec_pending(self) -> Option<PendingCaptureRestore> {
        self.pending_restore
    }

    /// A failure that left nothing armed.
    pub fn clean(error: GestureError) -> (f: Self)
        ensures
            f.spec_error() == error,
            f.spec_pending() is None,
    {
        CaptureSessionFailure { error, pending_restore: None }
    }

    /// A failure whose rollback left `pending` armed.
    pub fn with_pending(error: GestureError, pending: PendingCaptureRestore) -> (f: Self)
        ensures
            f.spec_error() == error,
            f.spec_pending() == Some(pending),
    {
        CaptureSessionFailure { error, pending_restore: Some(pending) }
    }

    /// Split the setup error from the ownership the caller must retain.
    pub fn into_parts(self) -> (r: (GestureError, Option<PendingCaptureRestore>))
        ensures
            r == (self.spec_error(), self.spec_pending()),
    {
        (self.error, self.pending_restore)
    }
}

impl From<GestureError> for CaptureSessionFailure {
    fn from(error: GestureError) -> (f: Self) {
        CaptureSessionFailure::clean(error)
    }
}

impl vstd::std_specs::convert::FromSpecImpl<GestureError> for CaptureSessionFailure {
    open spec fn obeys_from_spec() -> bool {
        true
    }

    closed spec fn from_spec(v: GestureError) -> Self {
        CaptureSessionFailure { error: v, pending_restore: None }
    }
}

/// How a stopped or rolled-back capture hands back what it still owns.
#[derive(Debug, Clone, Copy, PartialEq, Eq, Structural)]
pub enum RestorePlan {
    /// Nothing is owned: done.
    Nothing,
    /// Retry through inventory's current publication, under this policy.
    Retry(RetiredChannelPolicy),
    /// Restore on the standalone channel the session ran on.
    Standalone,
    /// Keep the ownership pending.
    Keep,
}

/// How to release what a capture still owns after it stops: a shutdown may
/// write the still-current original channel; a channel change only goes
/// through inventory's current publication, and with no inventory it stays
/// pending.
pub fn restore_after_stop_plan(stop: CaptureStop, owns: bool, has_registry: bool) -> (p: RestorePlan)
    ensures
        p == (if !owns {
            RestorePlan::Nothing
        } else {
            match stop {
                CaptureStop::Shutdown => if has_registry { RestorePlan::Retry(RetiredChannelPolicy::CurrentAllowed) } else { RestorePlan::Standalone },
                CaptureStop::ChannelChanged => if has_registry { RestorePlan::Retry(RetiredChannelPolicy::ReplacementOnly) } else { RestorePlan::Keep },
            }
        }),
{
    if !owns {
        return RestorePlan::Nothing;
    }
    match stop {
        CaptureStop::Shutdown => if has_registry { RestorePlan::Retry(RetiredChannelPolicy::CurrentAllowed) } else { RestorePlan::Standalone },
        CaptureStop::ChannelChanged => if has_registry { RestorePlan::Retry(RetiredChannelPolicy::ReplacementOnly) } else { RestorePlan::Keep },
    }
}

/// How to roll back a partially armed session: the original channel is
/// still current, so it may be written.
pub fn rollback_plan(owns: bool, has_registry: bool) -> (p: RestorePlan)
    ensures
        p == (if !owns {
            RestorePlan::Nothing
        } else if has_registry {
            RestorePlan::Retry(RetiredChannelPolicy::CurrentAllowed)
        } else {
            RestorePlan::Standalone
        }),
{
    if !owns {
        RestorePlan::Nothing
    } else if has_registry {
        RestorePlan::Retry(RetiredChannelPolicy::CurrentAllowed)
    } else {
        RestorePlan::Standalone
    }
}

/// The rollback failure: clean when the hand-back completed, carrying the
/// ownership otherwise.
pub fn rollback_failure(error: GestureError, outcome: Option<CaptureSessionOutcome>) -> (f: CaptureSessionFailure)
    ensures
        f.spec_error() == error,
        f.spec_pending() == (match outcome {
            Some(CaptureSessionOutcome::RestorePending(p)) => Some(p),
            _ => None::<PendingCaptureRestore>,
        }),
{
    match outcome {
        Some(CaptureSessionOutcome::RestorePending(pending)) => CaptureSessionFailure::with_pending(error, pending),
        _ => CaptureSessionFailure::clean(error),
    }
}

/// Why to stop at shutdown: a stop request racing a publication
/// replacement must not win and write through a retired channel.
pub fn stop_for_current_publication(has_registry: bool, is_current: bool) -> (s: CaptureStop)
    ensures
        s == (if has_registry && !is_current { CaptureStop::ChannelChanged } else { CaptureStop::Shutdown }),
{
    if has_registry && !is_current {
        CaptureStop::ChannelChanged
    } else {
        CaptureStop::Shutdown
    }
}

/// Divert a control in the requested mode while preserving its remap target.
pub fn divert_change(reporting: CidReporting, raw_xy: bool) -> (c: CidReportingChange)
    ensures
        c == (CidReportingChange { diverted: Some(true), raw_xy: Some(raw_xy), remap: reporting.remap, ..crate::reprog_controls::no_change() }),
{
    CidReportingChange { diverted: Some(true), raw_xy: Some(raw_xy), remap: reporting.remap, ..CidReportingChange::default() }
}

/// Clear diversion while preserving the control's original remap target.
pub fn undivert_change(reporting: CidReporting) -> (c: CidReportingChange)
    ensures
        c == (CidReportingChange { diverted: Some(false), raw_xy: Some(false), remap: reporting.remap, ..crate::reprog_controls::no_change() }),
{
    CidReportingChange { diverted: Some(false), raw_xy: Some(false), remap: reporting.remap, ..CidReportingChange::default() }
}

/// Undiverting touches only the bits diverting set: both keep the remap
/// target and leave every other bit alone, and they differ only in the
/// divert and raw-XY bits.
pub proof fn lemma_undivert_mirrors_divert(reporting: CidReporting, raw_xy: bool)
    ensures
        ({
            let d = CidReportingChange { diverted: Some(true), raw_xy: Some(raw_xy), remap: reporting.remap, ..crate::reprog_controls::no_change() };
            let u = CidReportingChange { diverted: Some(false), raw_xy: Some(false), remap: reporting.remap, ..crate::reprog_controls::no_change() };
            &&& d.remap == u.remap
            &&& d.persistently_diverted == u.persistently_diverted && d.persistently_diverted is None
            &&& d.force_raw_xy == u.force_raw_xy && d.analytics_key_events == u.analytics_key_events
            &&& d.raw_wheel == u.raw_wheel
        }),
{
}

} // verus!

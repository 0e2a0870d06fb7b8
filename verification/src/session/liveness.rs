//! Event-aware liveness for the gesture capture channel.
//!
//! A capture channel is probed only after a whole idle interval without any
//! delivered report, and is replaced after two consecutive probes that heard
//! nothing at all, or at once when the channel itself fails. Time is a
//! monotonic millisecond count; delivered reports are counted in a
//! generation number that changes whenever any arrive.

use vstd::prelude::*;

verus! {

/// How long, in milliseconds, a channel must be wholly idle before capture
/// probes it.
pub const IDLE_INTERVAL_MS: u64 = 20_000;

/// Consecutive all-silent probes after which capture replaces the channel.
pub const SILENT_STRIKES_BEFORE_RESTART: u8 = 2;

/// Whether one completed probe observed delivery on the capture channel.
#[derive(Clone, Copy, Debug, PartialEq, Eq, Structural)]
pub enum PingOutcome {
    /// A response arrived, whether a pong or a HID++ error.
    Delivered,
    /// Neither a response nor any other report arrived before the timeout.
    AllSilent,
    /// The channel failed before delivery could be established.
    ChannelFailed,
}

/// What capture should do after accounting for a completed probe.
#[derive(Clone, Copy, Debug, PartialEq, Eq, Structural)]
pub enum LivenessDecision {
    /// Keep the channel.
    Continue,
    /// Replace the channel.
    Restart,
}

/// Deadline and strike state for one capture channel.
#[derive(Clone, Copy, Debug, PartialEq, Eq, Structural)]
pub struct CaptureLiveness {
    /// The activity generation last accounted for.
    pub activity_generation: u64,
    /// When the channel is next due a probe.
    pub idle_deadline: u64,
    /// Consecutive probes that heard nothing.
    pub silent_strikes: u8,
}

/// Whether `now` leaves room for one more idle interval.
pub open spec fn schedulable(now: u64) -> bool {
    now + IDLE_INTERVAL_MS <= u64::MAX
}

/// The state after accounting for activity `generation` at `now`, and
/// whether there was new activity.
pub open spec fn spec_take_activity(s: CaptureLiveness, now: u64, generation: u64) -> (CaptureLiveness, bool) {
    if generation == s.activity_generation {
        (s, false)
    } else {
        (CaptureLiveness { activity_generation: generation, idle_deadline: (now + IDLE_INTERVAL_MS) as u64, silent_strikes: 0 }, true)
    }
}

/// The state and decision after a completed probe.
pub open spec fn spec_finish_ping(s: CaptureLiveness, now: u64, generation: u64, outcome: PingOutcome) -> (CaptureLiveness, LivenessDecision) {
    let (t, activity) = spec_take_activity(s, now, generation);
    let t = CaptureLiveness { idle_deadline: (now + IDLE_INTERVAL_MS) as u64, ..t };
    if outcome == PingOutcome::ChannelFailed {
        (t, LivenessDecision::Restart)
    } else if activity || outcome == PingOutcome::Delivered {
        (CaptureLiveness { silent_strikes: 0, ..t }, LivenessDecision::Continue)
    } else {
        let strikes = if t.silent_strikes == u8::MAX { u8::MAX } else { (t.silent_strikes + 1) as u8 };
        (
            CaptureLiveness { silent_strikes: strikes, ..t },
            if strikes >= SILENT_STRIKES_BEFORE_RESTART { LivenessDecision::Restart } else { LivenessDecision::Continue },
        )
    }
}

impl CaptureLiveness {
    /// A fresh channel at `now`, first due a probe one idle interval later.
    pub fn new(now: u64, activity_generation: u64) -> (s: Self)
        requires
            schedulable(now),
        ensures
            s == (CaptureLiveness { activity_generation, idle_deadline: (now + IDLE_INTERVAL_MS) as u64, silent_strikes: 0 }),
    {
        CaptureLiveness { activity_generation, idle_deadline: now + IDLE_INTERVAL_MS, silent_strikes: 0 }
    }

    /// The activity generation last accounted for.
    pub fn activity_generation(&self) -> (g: u64)
        ensures
            g == self.activity_generation,
    {
        self.activity_generation
    }

    /// When the channel is next due a probe.
    pub fn idle_deadline(&self) -> (d: u64)
        ensures
            d == self.idle_deadline,
    {
        self.idle_deadline
    }

    /// Account for delivered reports: new activity defers the next probe by a
    /// whole idle interval and clears any silent strike.
    pub fn record_activity(&mut self, now: u64, generation: u64)
        requires
            schedulable(now),
        ensures
            *final(self) == spec_take_activity(*old(self), now, generation).0,
    {
        let _ = self.take_activity(now, generation);
    }

    /// Whether a probe is due when the timer fires: only with no new activity
    /// and the deadline reached; new activity is accounted for first.
    pub fn ping_due(&mut self, now: u64, generation: u64) -> (due: bool)
        requires
            schedulable(now),
        ensures
            *final(self) == spec_take_activity(*old(self), now, generation).0,
            due == (!spec_take_activity(*old(self), now, generation).1 && now >= old(self).idle_deadline),
    {
        !self.take_activity(now, generation) && now >= self.idle_deadline
    }

    /// Account for a completed probe and schedule the next one a whole
    /// interval later. A failed channel restarts; any delivery, or activity
    /// racing a silent result, clears the strikes; a silent probe adds one,
    /// and the second in a row restarts.
    pub fn finish_ping(&mut self, now: u64, generation: u64, outcome: PingOutcome) -> (d: LivenessDecision)
        requires
            schedulable(now),
        ensures
            (*final(self), d) == spec_finish_ping(*old(self), now, generation, outcome),
    {
        let activity = self.take_activity(now, generation);
        self.idle_deadline = now + IDLE_INTERVAL_MS;
        if outcome == PingOutcome::ChannelFailed {
            return LivenessDecision::Restart;
        }
        if activity || outcome == PingOutcome::Delivered {
            self.silent_strikes = 0;
            return LivenessDecision::Continue;
        }
        self.silent_strikes = self.silent_strikes.saturating_add(1);
        if self.silent_strikes >= SILENT_STRIKES_BEFORE_RESTART {
            LivenessDecision::Restart
        } else {
            LivenessDecision::Continue
        }
    }

    fn take_activity(&mut self, now: u64, generation: u64) -> (activity: bool)
        requires
            schedulable(now),
        ensures
            (*final(self), activity) == spec_take_activity(*old(self), now, generation),
    {
        if generation == self.activity_generation {
            return false;
        }
        self.activity_generation = generation;
        self.idle_deadline = now + IDLE_INTERVAL_MS;
        self.silent_strikes = 0;
        true
    }
}

/// Two all-silent probes in a row, with no activity in between, restart a
/// fresh channel, while one does not; and a channel failure restarts at once.
pub proof fn lemma_two_silent_probes_restart(s: CaptureLiveness, t1: u64, t2: u64)
    requires
        s.silent_strikes == 0,
        schedulable(t1),
        schedulable(t2),
    ensures
        spec_finish_ping(s, t1, s.activity_generation, PingOutcome::AllSilent).1 == LivenessDecision::Continue,
        spec_finish_ping(spec_finish_ping(s, t1, s.activity_generation, PingOutcome::AllSilent).0, t2,
            s.activity_generation, PingOutcome::AllSilent).1 == LivenessDecision::Restart,
        spec_finish_ping(s, t1, s.activity_generation, PingOutcome::ChannelFailed).1 == LivenessDecision::Restart,
{
}

/// Any delivery, or any new activity, clears the strikes and keeps the
/// channel; every completed probe schedules the next a whole interval later;
/// and a probe is never due before the deadline.
pub proof fn lemma_delivery_resets_strikes(s: CaptureLiveness, now: u64, generation: u64, outcome: PingOutcome)
    requires
        schedulable(now),
    ensures
        (outcome == PingOutcome::Delivered || generation != s.activity_generation) ==> ({
            let (t, d) = spec_finish_ping(s, now, generation, outcome);
            outcome != PingOutcome::ChannelFailed ==> t.silent_strikes == 0 && d == LivenessDecision::Continue
        }),
        spec_finish_ping(s, now, generation, outcome).0.idle_deadline == now + IDLE_INTERVAL_MS,
        spec_finish_ping(s, now, generation, outcome).0.activity_generation == generation,
        now < s.idle_deadline ==> !(!spec_take_activity(s, now, generation).1 && now >= s.idle_deadline),
{
}

} // verus!

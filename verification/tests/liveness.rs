use openlogi::session::liveness::{CaptureLiveness, LivenessDecision, PingOutcome, IDLE_INTERVAL_MS};

#[test]
fn active_traffic_defers_the_idle_ping() {
    let mut now: u64 = 1_000;
    let mut generation: u64 = 0;
    let mut liveness = CaptureLiveness::new(now, generation);
    let almost_idle = IDLE_INTERVAL_MS - 1_000;

    now += almost_idle;
    generation += 1;
    liveness.record_activity(now, generation);
    now += 1_000;

    assert!(!liveness.ping_due(now, generation));
    now += almost_idle;
    assert!(liveness.ping_due(now, generation));
}

#[test]
fn idle_ping_is_scheduled_after_each_full_interval() {
    let mut now: u64 = 0;
    let generation: u64 = 0;
    let mut liveness = CaptureLiveness::new(now, generation);
    let almost_idle = IDLE_INTERVAL_MS - 1;

    now += almost_idle;
    assert!(!liveness.ping_due(now, generation));
    now += 1;
    assert!(liveness.ping_due(now, generation));
    assert!(matches!(
        liveness.finish_ping(now, generation, PingOutcome::AllSilent),
        LivenessDecision::Continue
    ));

    now += almost_idle;
    assert!(!liveness.ping_due(now, generation));
    now += 1;
    assert!(liveness.ping_due(now, generation));
}

#[test]
fn delivery_resets_a_silent_strike() {
    let mut now: u64 = 0;
    let generation: u64 = 0;
    let mut liveness = CaptureLiveness::new(now, generation);

    now += IDLE_INTERVAL_MS;
    assert!(matches!(liveness.finish_ping(now, generation, PingOutcome::AllSilent), LivenessDecision::Continue));
    now += IDLE_INTERVAL_MS;
    assert!(matches!(liveness.finish_ping(now, generation, PingOutcome::Delivered), LivenessDecision::Continue));
    now += IDLE_INTERVAL_MS;
    assert!(matches!(liveness.finish_ping(now, generation, PingOutcome::AllSilent), LivenessDecision::Continue));
    now += IDLE_INTERVAL_MS;
    assert!(matches!(liveness.finish_ping(now, generation, PingOutcome::AllSilent), LivenessDecision::Restart));
}

#[test]
fn channel_failure_restarts_without_a_second_probe() {
    let mut now: u64 = 0;
    let mut liveness = CaptureLiveness::new(now, 0);

    now += IDLE_INTERVAL_MS;
    assert!(matches!(liveness.finish_ping(now, 0, PingOutcome::ChannelFailed), LivenessDecision::Restart));
}

#[test]
fn activity_racing_a_silent_probe_wins() {
    let mut liveness = CaptureLiveness::new(0, 4);
    assert!(matches!(liveness.finish_ping(IDLE_INTERVAL_MS, 4, PingOutcome::AllSilent), LivenessDecision::Continue));
    assert_eq!(liveness.silent_strikes, 1);
    assert!(matches!(liveness.finish_ping(2 * IDLE_INTERVAL_MS, 5, PingOutcome::AllSilent), LivenessDecision::Continue));
    assert_eq!(liveness.silent_strikes, 0);
    assert_eq!(liveness.activity_generation(), 5);
    assert_eq!(liveness.idle_deadline(), 3 * IDLE_INTERVAL_MS);
}

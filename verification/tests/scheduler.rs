use air_monitor::{
    plan_cycle, Action, Data, IndicatorState, Scheduler, TaskState, SAMPLE_PERIOD_MS,
};

#[test]
fn first_sample_firing_is_kicked_at_startup() {
    let mut s = Scheduler::new(0);
    assert_eq!(s.next_action(0), Some(Action::StartSample));
    assert!(s.start_sample(0));
    assert_eq!(s.sample, TaskState::Running);
}

#[test]
fn timer_expiry_during_a_running_sample_is_deferred() {
    let mut s = Scheduler::new(0);
    assert!(s.start_sample(0));
    let in_flight = s;
    // The period elapses while the first firing is still in flight: the
    // second firing must be deferred, not interleaved.
    assert!(!s.start_sample(SAMPLE_PERIOD_MS));
    assert_eq!(s, in_flight);
    assert!(!s.start_sample(SAMPLE_PERIOD_MS + 7));
    assert_eq!(s, in_flight);
    s.finish_sample();
    assert!(s.start_sample(SAMPLE_PERIOD_MS));
}

#[test]
fn next_firing_is_rearmed_from_the_start_of_the_run() {
    let mut s = Scheduler::new(0);
    assert!(s.start_sample(5));
    assert_eq!(s.sample_due, 5 + SAMPLE_PERIOD_MS);
    s.finish_sample();
    assert!(!s.start_sample(5 + SAMPLE_PERIOD_MS - 1));
    assert!(s.start_sample(5 + SAMPLE_PERIOD_MS));
}

#[test]
fn alert_requests_during_a_burst_coalesce_into_none() {
    let mut s = Scheduler::new(0);
    s.request_alert();
    assert!(s.start_alert());
    assert_eq!(s.bursts_started, 1);
    // Two further requests arrive while the burst is running.
    s.request_alert();
    s.request_alert();
    assert!(!s.start_alert());
    assert_eq!(s.bursts_started, 1);
    s.finish_alert();
    // The ignored requests left nothing pending: no second burst.
    assert!(!s.start_alert());
    assert_eq!(s.bursts_started, 1);
}

#[test]
fn pending_requests_coalesce_into_one_burst() {
    let mut s = Scheduler::new(0);
    s.request_alert();
    s.request_alert();
    s.request_alert();
    assert!(s.start_alert());
    s.finish_alert();
    assert!(!s.start_alert());
    assert_eq!(s.bursts_started, 1);
}

#[test]
fn pending_alert_is_dispatched_before_a_due_sample() {
    let mut s = Scheduler::new(0);
    s.request_alert();
    // Both are pending: the sample period has elapsed and an alert waits.
    assert_eq!(s.next_action(0), Some(Action::StartAlert));
    assert!(s.start_alert());
    // While the burst runs, the sample firing stays deferred.
    assert_eq!(s.next_action(0), None);
    assert!(!s.start_sample(0));
    s.finish_alert();
    assert_eq!(s.next_action(0), Some(Action::StartSample));
}

#[test]
fn cycle_plan_for_no_reading_changes_nothing() {
    let plan = plan_cycle(None);
    assert_eq!(plan.render, None);
    assert_eq!(plan.indicator, None);
    assert!(!plan.request_alert);
}

#[test]
fn cycle_plan_renders_and_classifies_a_reading() {
    let reading = Data {
        co2_bits: 1500.0f32.to_bits(),
        temperature_bits: 21.5f32.to_bits(),
        humidity_bits: 40.0f32.to_bits(),
    };
    let plan = plan_cycle(Some(reading));
    assert_eq!(plan.render, Some(reading));
    assert_eq!(plan.indicator, Some(IndicatorState::Red));
    assert!(plan.request_alert);

    let calm = Data { co2_bits: 600.0f32.to_bits(), ..reading };
    let plan = plan_cycle(Some(calm));
    assert_eq!(plan.indicator, Some(IndicatorState::Green));
    assert!(!plan.request_alert);
}

use glomeris::evidence::time::TimeSpan;
use glomeris::monitor::clock::{Clock, FakeClock};
use glomeris::monitor::fs_stat::FsUsage;
use glomeris::monitor::notifier::notification_text;
use glomeris::monitor::persistence::{secs_since_epoch, ActionSource, FilePersistence, TailBuffer};
use glomeris::monitor::poller::{default_confirm_after, default_poll_interval, PollConfig, PollSchedule};
use glomeris::monitor::pressure::PressureState;
use glomeris::monitor::state_machine::{PressureStateMachine, Transition};

#[test]
fn ordering_is_ascending_urgency() {
    assert!(PressureState::Healthy < PressureState::Warn);
    assert!(PressureState::Warn < PressureState::Pressured);
    assert!(PressureState::Pressured < PressureState::Critical);
    assert!(PressureState::Critical < PressureState::Emergency);
}

#[test]
fn as_str_round_trips_display() {
    let names: Vec<&str> = PressureState::all().iter().map(|s| s.as_str()).collect();
    assert_eq!(names, vec!["HEALTHY", "WARN", "PRESSURED", "CRITICAL", "EMERGENCY"]);
}

#[test]
fn notification_text_is_fixed_and_templated() {
    let (title, body) = notification_text(PressureState::Healthy, PressureState::Warn);
    assert_eq!(title, "Glomeris: disk pressure WARN");
    assert_eq!(body, "Disk pressure changed from HEALTHY to WARN.");
}

#[test]
fn fake_clock_sleep_does_not_block_and_advances_now() {
    let mut clock = FakeClock::new();
    let before = clock.now();
    clock.sleep(TimeSpan::from_secs(3600));
    let after = clock.now();
    assert_eq!(after.checked_sub(&before), Some(TimeSpan::from_secs(3600)));
    assert_eq!(clock.recorded_sleeps(), vec![TimeSpan::from_secs(3600)]);
}

#[test]
fn fake_clock_records_every_sleep_call() {
    let mut clock = FakeClock::new();
    clock.sleep(TimeSpan::from_secs(1));
    clock.sleep(TimeSpan::from_secs(2));
    assert_eq!(clock.sleep_count(), 2);
    assert_eq!(clock.now(), TimeSpan::from_secs(3));
}

#[test]
fn fake_clock_normalises_sub_second_sleeps() {
    let mut clock = FakeClock::default();
    clock.sleep(TimeSpan { secs: 0, nanos: 700_000_000 });
    clock.sleep(TimeSpan { secs: 1, nanos: 600_000_000 });
    assert_eq!(clock.now(), TimeSpan { secs: 2, nanos: 300_000_000 });
}

#[test]
fn action_source_strings_are_the_ones_the_gui_and_history_expect() {
    assert_eq!(ActionSource::Execute.as_str(), "execute");
    assert_eq!(ActionSource::Free.as_str(), "free");
    assert_eq!(ActionSource::Emergency.as_str(), "emergency");
    assert_eq!(ActionSource::AutopilotAutoSafe.as_str(), "autopilot_auto_safe");
    assert_eq!(ActionSource::AutopilotPreauthorizedAsk.as_str(), "autopilot_preauthorized_ask");
}

#[test]
fn action_source_strings_are_distinct_and_non_empty() {
    let all = [
        ActionSource::Execute,
        ActionSource::Free,
        ActionSource::Emergency,
        ActionSource::AutopilotAutoSafe,
        ActionSource::AutopilotPreauthorizedAsk,
    ];
    let mut tags: Vec<&str> = all.iter().map(|s| s.as_str()).collect();
    assert!(tags.iter().all(|t| !t.is_empty()));
    tags.sort_unstable();
    tags.dedup();
    assert_eq!(tags.len(), all.len());
}

#[test]
fn file_persistence_remembers_its_path() {
    let p = FilePersistence::new("/tmp/glomeris/history.tsv".to_string());
    assert_eq!(p.path(), "/tmp/glomeris/history.tsv");
}

#[test]
fn tail_buffer_keeps_the_most_recent_entries_oldest_first() {
    let mut tail = TailBuffer::new(3);
    for i in 0..10 {
        tail.push(i);
    }
    assert_eq!(tail.into_vec(), vec![7, 8, 9]);
    let mut short = TailBuffer::new(5);
    short.push("a");
    short.push("b");
    assert_eq!(short.into_vec(), vec!["a", "b"]);
    let mut none = TailBuffer::new(0);
    none.push(1);
    assert!(none.into_vec().is_empty());
}

#[test]
fn poll_config_defaults() {
    let config = PollConfig::new("/".to_string());
    assert_eq!(config.watch_path, "/");
    assert_eq!(config.poll_interval, TimeSpan::from_secs(60));
    assert_eq!(config.confirm_after, 2);
    assert_eq!(default_poll_interval(), TimeSpan::from_secs(60));
    assert_eq!(default_confirm_after(), 2);
    let usage = FsUsage::new(100, 20);
    assert_eq!((usage.total_bytes, usage.free_bytes), (100, 20));
}

#[test]
fn a_crossing_is_confirmed_after_the_debounce_window_exactly_once() {
    let mut machine = PressureStateMachine::new(PressureState::Healthy, 2);
    assert_eq!(machine.observe(PressureState::Warn), None);
    assert_eq!(
        machine.observe(PressureState::Warn),
        Some(Transition { from: PressureState::Healthy, to: PressureState::Warn })
    );
    assert_eq!(machine.current(), PressureState::Warn);
    for _ in 0..5 {
        assert_eq!(machine.observe(PressureState::Warn), None);
    }
}

#[test]
fn a_single_noisy_sample_never_transitions() {
    let mut machine = PressureStateMachine::new(PressureState::Healthy, 2);
    for _ in 0..10 {
        assert_eq!(machine.observe(PressureState::Critical), None);
        assert_eq!(machine.observe(PressureState::Healthy), None);
    }
    assert_eq!(machine.current(), PressureState::Healthy);
}

#[test]
fn a_different_candidate_restarts_the_count() {
    let mut machine = PressureStateMachine::new(PressureState::Healthy, 2);
    assert_eq!(machine.observe(PressureState::Warn), None);
    assert_eq!(machine.observe(PressureState::Critical), None);
    assert_eq!(
        machine.observe(PressureState::Critical),
        Some(Transition { from: PressureState::Healthy, to: PressureState::Critical })
    );
}

#[test]
fn a_zero_threshold_is_clamped_to_one() {
    let mut machine = PressureStateMachine::new(PressureState::Healthy, 0);
    assert_eq!(
        machine.observe(PressureState::Emergency),
        Some(Transition { from: PressureState::Healthy, to: PressureState::Emergency })
    );
}

#[test]
fn crossings_pick_the_most_urgent_crossed_level() {
    assert_eq!(PressureState::from_crossings(false, false, false, false), PressureState::Healthy);
    assert_eq!(PressureState::from_crossings(false, false, false, true), PressureState::Warn);
    assert_eq!(PressureState::from_crossings(false, false, true, true), PressureState::Pressured);
    assert_eq!(PressureState::from_crossings(false, true, false, false), PressureState::Critical);
    assert_eq!(PressureState::from_crossings(true, false, true, false), PressureState::Emergency);
}

#[test]
fn clock_readings_give_whole_seconds_or_zero_before_the_epoch() {
    assert_eq!(secs_since_epoch(Ok((1_700_000_123, 999_999_999))), 1_700_000_123);
    assert_eq!(secs_since_epoch(Ok((0, 5))), 0);
    assert_eq!(secs_since_epoch(Err((42, 0))), 0);
}

#[test]
fn interrupted_run_restarts_the_count() {
    let mut m = PressureStateMachine::new(PressureState::Healthy, 3);
    assert_eq!(m.observe(PressureState::Warn), None);
    assert_eq!(m.observe(PressureState::Warn), None);
    assert_eq!(m.observe(PressureState::Critical), None);
    assert_eq!(m.observe(PressureState::Warn), None);
    assert_eq!(m.observe(PressureState::Warn), None);
    assert_eq!(m.current(), PressureState::Healthy);
    assert_eq!(
        m.observe(PressureState::Warn),
        Some(Transition {
            from: PressureState::Healthy,
            to: PressureState::Warn
        })
    );
    assert_eq!(m.observe(PressureState::Warn), None);
    assert_eq!(m.current(), PressureState::Warn);
}

#[test]
fn poll_schedule_sleeps_only_between_polls() {
    let mut schedule = PollSchedule::new(Some(3));
    let mut polls = 0;
    let mut sleeps = 0;
    while schedule.poll_due() {
        polls += 1;
        if !schedule.polled() {
            break;
        }
        sleeps += 1;
    }
    assert_eq!((polls, sleeps), (3, 2));
    assert!(!PollSchedule::new(Some(0)).poll_due());
    let mut unbounded = PollSchedule::new(None);
    assert!(unbounded.poll_due());
    assert!(unbounded.polled());
}

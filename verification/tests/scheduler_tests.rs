use cells_renderer::UpdateScheduler;

#[test]
fn interval_is_a_whole_fraction_of_a_second() {
    let s = UpdateScheduler::new(60, 0);
    assert_eq!(s.interval, 1_000_000_000 / 60);
    assert_eq!(s.last_update, 0);
    assert!(!s.paused);
}

#[test]
fn no_fire_before_the_interval_elapses() {
    let mut s = UpdateScheduler::new(100, 0);
    assert_eq!(s.interval, 10_000_000);
    assert!(!s.poll(0));
    assert!(!s.poll(9_999_999));
    assert_eq!(s.last_update, 0);
    assert!(s.poll(10_000_000));
    assert_eq!(s.last_update, 10_000_000);
}

#[test]
fn fire_count_matches_elapsed_intervals() {
    // Interval 10, polls every 3 time units: over a span D the number of
    // fires is floor(D / 10), give or take one.
    let mut s = UpdateScheduler { interval: 10, last_update: 0, paused: false };
    let mut fires = 0;
    let mut t = 0;
    while t <= 97 {
        if s.poll(t) {
            fires += 1;
        }
        t += 3;
    }
    assert!(fires == 9 || fires == 10);
}

#[test]
fn schedule_advances_from_scheduled_time_not_from_now() {
    let mut s = UpdateScheduler { interval: 10, last_update: 0, paused: false };
    assert!(s.poll(13));
    // The next tick is due at 20, not at 23.
    assert_eq!(s.last_update, 10);
    assert!(!s.poll(19));
    assert!(s.poll(20));
}

#[test]
fn a_stall_catches_up_one_tick_per_poll() {
    let mut s = UpdateScheduler { interval: 10, last_update: 0, paused: false };
    // Nothing polled for 50 units; each later poll fires exactly once.
    assert!(s.poll(50));
    assert_eq!(s.last_update, 10);
    assert!(s.poll(51));
    assert_eq!(s.last_update, 20);
    assert!(s.poll(52));
    assert_eq!(s.last_update, 30);
}

#[test]
fn polling_leaves_the_pause_flag_alone() {
    let mut s = UpdateScheduler { interval: 10, last_update: 0, paused: true };
    assert!(s.poll(25));
    assert!(s.paused);
}

use loadgen::stop::{progress_percent, DeadlineTimer, StopSignal};

#[test]
fn stop_signal_starts_unfired() {
    let s = StopSignal::new();
    assert!(!s.is_stopped());
}

#[test]
fn stop_signal_fires_once() {
    let mut s = StopSignal::new();
    s.fire();
    assert!(s.is_stopped());
}

#[test]
fn firing_twice_changes_nothing() {
    let mut s = StopSignal::new();
    s.fire();
    assert!(s.is_stopped());
    s.fire();
    assert!(s.is_stopped());
}

#[test]
fn timer_holds_before_the_deadline() {
    let mut t = DeadlineTimer::new(2000);
    assert!(!t.tick(0));
    assert!(!t.tick(1000));
    assert!(!t.tick(1999));
}

#[test]
fn timer_fires_exactly_once_at_the_deadline() {
    let mut t = DeadlineTimer::new(2000);
    assert!(!t.tick(1000));
    assert!(t.tick(2000));
    assert!(!t.tick(3000));
    assert!(!t.tick(4000));
}

#[test]
fn timer_fires_on_first_tick_past_the_deadline() {
    let mut t = DeadlineTimer::new(1500);
    assert!(!t.tick(1000));
    assert!(t.tick(2000));
}

#[test]
fn progress_runs_from_zero_to_a_hundred() {
    assert_eq!(progress_percent(0, 2000), 0);
    assert_eq!(progress_percent(500, 2000), 25);
    assert_eq!(progress_percent(1000, 2000), 50);
    assert_eq!(progress_percent(2000, 2000), 100);
    assert_eq!(progress_percent(9999, 2000), 100);
}

use pomodoro_core::timer::PomodoroState;

#[test]
fn full_countdown_with_pause_and_single_expiry_event() {
    let mut t = PomodoroState::default();
    assert_eq!(t.remaining_seconds, 1500);
    assert!(!t.is_running);

    t.start_timer(0);
    let snap = t.get_state(10);
    assert_eq!(snap.remaining_seconds, 1490);
    assert!(snap.is_running);

    t.pause_timer(10);
    let p1 = t.get_state(50);
    let p2 = t.get_state(500);
    let p3 = t.get_state(5000);
    assert_eq!(p1.remaining_seconds, 1490);
    assert_eq!(p1, p2);
    assert_eq!(p2, p3);

    t.start_timer(6000);
    let mut events: u32 = 0;
    let mut now: u64 = 6000;
    while now <= 6000 + 1600 {
        if t.poll_tick(now) {
            events += 1;
        }
        now += 1;
    }
    assert_eq!(t.remaining_seconds, 0);
    assert!(!t.is_running);
    assert_eq!(t.start_time, None);
    assert_eq!(events, 1);
}

#[test]
fn expiry_seen_by_query_instead_of_poller() {
    let mut t = PomodoroState::default();
    t.set_time(30);
    t.start_timer(100);
    let snap = t.get_state(1590);
    assert_eq!(snap.remaining_seconds, 0);
    assert!(!snap.is_running);
    assert!(!t.poll_tick(1591));
}

#[test]
fn reset_after_partial_countdown_restores_total() {
    let mut t = PomodoroState::default();
    t.start_timer(0);
    let snap = t.get_state(321);
    assert_eq!(snap.remaining_seconds, 1179);
    t.reset_timer();
    assert_eq!(t.remaining_seconds, t.total_seconds);
    assert_eq!(t.remaining_seconds, 1500);
    assert!(!t.is_running);
}

#[test]
fn set_duration_then_start_then_reset_returns_to_new_duration() {
    let mut t = PomodoroState::default();
    t.set_time(600);
    t.start_timer(0);
    let snap = t.get_state(60);
    assert_eq!(snap.remaining_seconds, 540);
    t.reset_timer();
    assert_eq!(t.remaining_seconds, 600);
    assert_eq!(t.total_seconds, 600);
    assert!(!t.is_running);
}

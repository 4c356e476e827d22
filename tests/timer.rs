use live_rooms::timer::RoomTimer;

#[test]
fn first_activation_starts_the_timer() {
    let mut t = RoomTimer::new();
    assert_eq!(t.effective_elapsed(500), None);
    t.on_became_active(1000);
    assert_eq!(t.started_at, Some(1000));
    assert_eq!(t.paused_at, None);
    assert_eq!(t.total_pause_duration, 0);
    assert_eq!(t.effective_elapsed(1042), Some(42));
}

#[test]
fn leave_and_rejoin_adds_the_gap() {
    let mut t = RoomTimer::new();
    t.on_became_active(1000);
    t.on_became_idle(1100);
    assert_eq!(t.paused_at, Some(1100));
    assert_eq!(t.effective_elapsed(1200), Some(100));
    t.on_became_active(1250);
    assert_eq!(t.started_at, Some(1000));
    assert_eq!(t.paused_at, None);
    assert_eq!(t.total_pause_duration, 150);
    assert_eq!(t.effective_elapsed(1300), Some(150));
    t.on_became_idle(1400);
    t.on_became_active(1410);
    assert_eq!(t.total_pause_duration, 160);
    assert_eq!(t.started_at, Some(1000));
}

#[test]
fn activation_of_a_running_timer_changes_nothing() {
    let mut t = RoomTimer::new();
    t.on_became_active(10);
    let before = t;
    t.on_became_active(99);
    assert_eq!(t, before);
}

#[test]
fn clock_driven_transitions() {
    let mut t = RoomTimer::new();
    t.on_became_active_now();
    assert!(t.started_at.is_some());
    t.on_became_idle_now();
    assert!(t.paused_at.is_some());
    t.on_became_active_now();
    assert!(t.paused_at.is_none());
    assert!(t.total_pause_duration >= 0);
}

#[test]
fn pause_total_saturates() {
    let mut t = RoomTimer { started_at: Some(0), paused_at: Some(i64::MIN), total_pause_duration: i64::MAX };
    t.on_became_active(i64::MAX);
    assert_eq!(t.total_pause_duration, i64::MAX);
}

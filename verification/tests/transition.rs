use breakout::screens::transition::NewBallTransition;

#[test]
fn transition_begins_idle_and_done() {
    let t = NewBallTransition::new();
    assert_eq!(t, NewBallTransition { ticks: 0, idle: true, start_x: 0, duration: 75 });
    assert!(t.is_done());
}

#[test]
fn transition_is_done_at_its_duration_and_not_before() {
    let mut t = NewBallTransition::new();
    t.start(123_000_000);
    assert_eq!(
        t,
        NewBallTransition { ticks: 75, idle: false, start_x: 123_000_000, duration: 75 }
    );
    for n in 1..=75 {
        assert!(!t.is_done());
        t.next();
        assert_eq!(t.is_done(), n == 75);
    }
    assert!(t.is_done());
    assert!(!t.idle);
    t.set_idle();
    assert!(t.idle);
}

#[test]
fn transition_progress_runs_from_nothing_to_nearly_all() {
    let mut t = NewBallTransition::new();
    t.start(0);
    assert_eq!(t.next(), 0);
    assert_eq!(t.next(), 14);
    assert_eq!(t.next(), 27);
    for _ in 3..74 {
        t.next();
    }
    assert_eq!(t.ticks, 1);
    assert_eq!(t.next(), 987);
    assert_eq!(t.ticks, 0);
}

#[test]
fn transition_ticked_past_its_end_stays_done() {
    let mut t = NewBallTransition::new();
    t.start(0);
    for _ in 0..75 {
        t.next();
    }
    for _ in 0..10 {
        assert_eq!(t.next(), 1_000);
        assert!(t.is_done());
    }
    assert_eq!(t.ticks, -10);
}

#[test]
fn transition_counts_down_below_zero() {
    let mut t = NewBallTransition::new();
    assert_eq!(t.next(), 1_000);
    assert_eq!(t.ticks, -1);
    assert_eq!(t.next(), 1_000);
    assert_eq!(t, NewBallTransition { ticks: -2, idle: true, start_x: 0, duration: 75 });
    let mut far = NewBallTransition { ticks: isize::MIN + 1, idle: false, start_x: 7, duration: 1 };
    assert_eq!(far.next(), 1_000);
    assert_eq!(far.ticks, isize::MIN);
    assert!(far.is_done());
}

#[test]
fn transition_with_a_count_past_its_duration_has_made_no_progress() {
    let mut t = NewBallTransition { ticks: 80, idle: false, start_x: 0, duration: 75 };
    assert_eq!(t.next(), 0);
    assert_eq!(t.ticks, 79);
    let mut t = NewBallTransition { ticks: isize::MAX, idle: false, start_x: 0, duration: 75 };
    assert_eq!(t.next(), 0);
    assert_eq!(t.ticks, isize::MAX - 1);
    let mut t = NewBallTransition { ticks: 37, idle: false, start_x: 0, duration: 75 };
    assert_eq!(t.next(), 507);
}

#[test]
fn transition_can_start_again() {
    let mut t = NewBallTransition::new();
    t.start(1);
    t.next();
    t.start(2);
    assert_eq!(t.ticks, 75);
    assert_eq!(t.start_x, 2);
    assert!(!t.is_done());
}

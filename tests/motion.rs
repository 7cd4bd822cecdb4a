use desktop_pet::{
    destination_bounds, is_due, is_triggered, quit_program, random_destination, tracked_edge,
    Outcome, PetController, Position, Sprite, TickInput, TweenState,
};

fn p(x: i32, y: i32) -> Position {
    Position::new(x, y)
}

fn armed(start: Position, end: Position, steps: u32) -> TweenState {
    let mut t = TweenState::new(steps, p(0, 0));
    t.arm(start, end);
    t
}

#[test]
fn tween_arming_moves_nothing() {
    let t = armed(p(3, 4), p(300, 400), 100);
    assert!(t.active);
    assert_eq!(t.step, 0);
    assert_eq!(t.last, p(3, 4));
}

#[test]
fn tween_first_steps() {
    let mut t = armed(p(0, 0), p(1000, 500), 100);
    assert_eq!(t.advance(), (p(0, 0), false));
    assert_eq!(t.advance(), (p(10, 5), false));
    assert_eq!(t.advance(), (p(20, 10), false));
    assert_eq!(t.step, 3);
}

#[test]
fn tween_spends_budget_in_total_steps_calls() {
    let mut t = armed(p(0, 0), p(1000, 500), 100);
    for k in 0..100 {
        let (pos, done) = t.advance();
        assert!(!done);
        assert_eq!(pos, p(10 * k, 5 * k));
    }
    assert_eq!(t.step, 100);
    assert!(t.active);
    assert_eq!(t.advance(), (p(990, 495), true));
    assert!(!t.active);
}

#[test]
fn tween_truncates_toward_zero_from_start() {
    // -150 / 100 rounds to -1 and 7 / 100 to 0, on every step alike.
    let mut t = armed(p(0, 0), p(-150, 7), 100);
    t.advance();
    assert_eq!(t.advance(), (p(-1, 0), false));
    for _ in 0..97 {
        t.advance();
    }
    assert_eq!(t.advance(), (p(-99, 0), false));
    assert_eq!(t.advance(), (p(-99, 0), true));
}

#[test]
fn tween_done_stays_done() {
    let mut t = armed(p(1, 1), p(5, 5), 1);
    assert_eq!(t.advance(), (p(1, 1), false));
    assert_eq!(t.advance(), (p(1, 1), true));
    assert_eq!(t.advance(), (p(1, 1), true));
}

#[test]
fn tween_arming_in_flight_changes_nothing() {
    let mut t = armed(p(0, 0), p(1000, 0), 100);
    for _ in 0..40 {
        t.advance();
    }
    let before = t;
    t.arm(p(-500, -500), p(7, 7));
    assert_eq!(t, before);
    assert_eq!(t.step, 40);
    assert_eq!(t.start, p(0, 0));
    assert_eq!(t.end, p(1000, 0));
}

#[test]
fn tween_large_span_does_not_overflow() {
    let mut t = armed(p(i32::MIN, i32::MAX), p(i32::MAX, i32::MIN), 100);
    let mut last = (p(0, 0), false);
    for _ in 0..101 {
        last = t.advance();
    }
    assert!(last.1);
    // (2^32 - 1) / 100 = 42949672, 99 steps of it from the start.
    assert_eq!(last.0, p(2104533880, -2104533881));
}

#[test]
fn zone_bounds_are_exact() {
    for &(ex, ey) in &[(0, 0), (500, 200), (-40, -90)] {
        let e = p(ex, ey);
        assert!(is_triggered(p(ex - 35, ey), e));
        assert!(!is_triggered(p(ex - 36, ey), e));
        assert!(is_triggered(p(ex + 10, ey + 30), e));
        assert!(!is_triggered(p(ex + 11, ey), e));
        assert!(!is_triggered(p(ex, ey - 1), e));
        assert!(!is_triggered(p(ex, ey + 31), e));
        assert!(is_triggered(p(ex, ey + 15), e));
    }
}

#[test]
fn edge_is_top_right_corner() {
    assert_eq!(tracked_edge(p(100, 50), 400), Some(p(500, 50)));
    assert_eq!(tracked_edge(p(i32::MAX - 10, 0), 10), Some(p(i32::MAX, 0)));
    assert_eq!(tracked_edge(p(i32::MAX - 10, 0), 11), None);
}

#[test]
fn timer_is_due_on_whole_periods() {
    assert!(is_due(0, 20, 60));
    assert!(is_due(1200, 20, 60));
    assert!(!is_due(1199, 20, 60));
    assert!(!is_due(1201, 20, 60));
    assert!(is_due(2400, 20, 60));
}

fn input(elapsed_ticks: u64, pointer: Position) -> TickInput {
    TickInput {
        elapsed_ticks,
        pointer,
        tracked_window: Some(p(1000, 300)),
        tracked_width: 400,
        pet_window: Some(p(200, 100)),
        monitor_width: 1920,
        monitor_height: 1080,
        pet_width: 100,
        pet_height: 100,
    }
}

const IN_ZONE: Position = Position { x: 1390, y: 310 };
const AWAY: Position = Position { x: 10, y: 10 };

#[test]
fn flee_scenario_at_sixty_hertz() {
    let mut c = PetController::standard();
    // Tick 0: the trigger is seen and the flee armed; nothing moves.
    let o = c.step(&input(0, IN_ZONE), None);
    assert_eq!(o.position, None);
    assert_eq!(o.sprite, Some(Sprite::Angry));
    assert!(c.should_flee);
    assert!(c.flee.active);
    assert_eq!(c.flee.start, p(200, 100));
    assert_eq!(c.flee.end, p(1400, 300));
    // Ticks 1 to 100: the window moves from (200, 100) towards (1400, 300).
    for k in 1..=100u64 {
        let o = c.step(&input(k, AWAY), None);
        let s = (k - 1) as i32;
        assert_eq!(o.position, Some(p(200 + 12 * s, 100 + 2 * s)));
        assert!(c.should_flee);
    }
    // Tick 101: the flee ends and its request clears.
    let o = c.step(&input(101, AWAY), None);
    assert_eq!(o.position, None);
    assert!(!c.should_flee);
    assert!(!c.flee.active);
}

#[test]
fn wander_requested_at_twenty_seconds() {
    let mut c = PetController::standard();
    let o = c.step(&input(1199, AWAY), None);
    assert!(!o.meow);
    assert!(!c.should_wander);
    let o = c.step(&input(1200, AWAY), None);
    assert!(o.meow);
    assert!(c.should_wander);
}

#[test]
fn wander_not_requested_while_fleeing() {
    let mut c = PetController::standard();
    let o = c.step(&input(1200, IN_ZONE), Some(p(5, 5)));
    assert!(!o.meow);
    assert!(!c.should_wander);
    assert!(c.flee.active);
    assert!(!c.wander.active);
}

#[test]
fn flee_preempts_pending_wander() {
    let mut c = PetController::standard();
    // A wander is requested, but the pet's window is not resolved yet.
    let mut inp = input(1200, AWAY);
    inp.pet_window = None;
    c.step(&inp, Some(p(5, 5)));
    assert!(c.should_wander);
    assert!(!c.wander.active);
    // The pointer enters the zone: the flee starts, the wander waits.
    let o = c.step(&input(1201, IN_ZONE), Some(p(5, 5)));
    assert!(c.flee.active);
    assert!(!c.wander.active);
    assert!(c.should_wander);
    assert_eq!(o.sprite, Some(Sprite::Angry));
}

#[test]
fn wander_runs_and_ends() {
    let mut c = PetController::standard();
    let o = c.step(&input(1200, AWAY), Some(p(100, 900)));
    assert_eq!(
        o,
        Outcome { position: None, sprite: Some(Sprite::Walking), meow: true, facing_left: Some(true) }
    );
    assert!(c.wander.active);
    let o = c.step(&input(1201, AWAY), None);
    assert_eq!(o.position, Some(p(200, 100)));
    let o = c.step(&input(1202, AWAY), None);
    assert_eq!(o.position, Some(p(199, 108)));
    for k in 3..=100u64 {
        c.step(&input(1200 + k, AWAY), None);
    }
    let o = c.step(&input(1301, AWAY), None);
    assert_eq!(o.sprite, Some(Sprite::Neutral));
    assert_eq!(o.position, None);
    assert!(!c.should_wander);
    assert!(!c.wander.active);
}

#[test]
fn flee_waits_for_wander_in_flight() {
    let mut c = PetController::standard();
    c.step(&input(1200, AWAY), Some(p(1000, 100)));
    assert!(c.wander.active);
    let o = c.step(&input(1201, IN_ZONE), None);
    assert!(c.should_flee);
    assert!(!c.flee.active);
    assert_eq!(o.position, Some(p(200, 100)));
    assert_eq!(o.sprite, Some(Sprite::Angry));
}

#[test]
fn unresolved_windows_skip_the_tick() {
    let mut c = PetController::standard();
    let mut inp = input(0, IN_ZONE);
    inp.tracked_window = None;
    let o = c.step(&inp, None);
    assert!(!c.should_flee);
    assert_eq!(o.sprite, None);
    let mut inp = input(1, IN_ZONE);
    inp.pet_window = None;
    c.step(&inp, None);
    assert!(c.should_flee);
    assert!(!c.flee.active);
    c.step(&input(2, AWAY), None);
    assert!(c.flee.active);
    assert_eq!(c.flee.start, p(200, 100));
}

#[test]
fn destination_bounds_follow_monitor_and_window() {
    let inp = input(0, AWAY);
    assert_eq!(destination_bounds(&inp), Some((1870, 1030)));
    let mut small = inp;
    small.monitor_width = 50;
    assert_eq!(destination_bounds(&small), None);
    small.monitor_width = 51;
    assert_eq!(destination_bounds(&small), Some((1, 1030)));
}

#[test]
fn random_destinations_stay_in_bounds() {
    let inp = input(0, AWAY);
    for _ in 0..500 {
        let d = random_destination(&inp).unwrap();
        assert!(0 <= d.x && d.x < 1870);
        assert!(0 <= d.y && d.y < 1030);
    }
    let mut narrow = inp;
    narrow.monitor_width = 51;
    assert_eq!(random_destination(&narrow).map(|d| d.x), Some(0));
}

#[test]
fn tick_draws_a_wander_destination_in_bounds() {
    let mut c = PetController::standard();
    c.tick(&input(1200, AWAY));
    assert!(c.wander.active);
    assert!(0 <= c.wander.end.x && c.wander.end.x < 1870);
    assert!(0 <= c.wander.end.y && c.wander.end.y < 1030);
    assert_eq!(c.wander.start, p(200, 100));
}

#[test]
fn quit_needs_the_whole_chord() {
    assert!(quit_program(true, true, true));
    assert!(!quit_program(true, true, false));
    assert!(!quit_program(true, false, true));
    assert!(!quit_program(false, true, true));
}

#[test]
fn random_destinations_vary() {
    let inp = input(0, AWAY);
    let first = random_destination(&inp).unwrap();
    let differs = (0..50).any(|_| random_destination(&inp).unwrap() != first);
    assert!(differs);
    assert!((0..50).any(|_| random_destination(&inp).unwrap().x > 0));
}

#[test]
fn unresolved_tracked_window_pauses_flee() {
    let mut c = PetController::standard();
    c.step(&input(0, IN_ZONE), None);
    c.step(&input(1, AWAY), None);
    assert_eq!(c.flee.step, 1);
    let before = c;
    let mut inp = input(2, AWAY);
    inp.tracked_window = None;
    let o = c.step(&inp, None);
    assert_eq!(o.position, None);
    assert_eq!(c, before);
    // The next resolved tick picks up where the flee stopped.
    let o = c.step(&input(3, AWAY), None);
    assert_eq!(o.position, Some(p(212, 102)));
    assert_eq!(c.flee.step, 2);
}

#[test]
fn unresolved_tracked_window_does_not_end_flee() {
    let mut c = PetController::standard();
    c.step(&input(0, IN_ZONE), None);
    for k in 1..=100u64 {
        c.step(&input(k, AWAY), None);
    }
    let mut inp = input(101, AWAY);
    inp.tracked_window = None;
    c.step(&inp, None);
    assert!(c.should_flee);
    assert!(c.flee.active);
    c.step(&input(102, AWAY), None);
    assert!(!c.should_flee);
    assert!(!c.flee.active);
}

#[test]
fn unresolved_tracked_window_keeps_wander_going() {
    let mut c = PetController::standard();
    c.step(&input(1200, AWAY), Some(p(100, 900)));
    c.step(&input(1201, AWAY), None);
    let mut inp = input(1202, AWAY);
    inp.tracked_window = None;
    let o = c.step(&inp, None);
    assert_eq!(o.position, Some(p(199, 108)));
}

#[test]
fn trigger_while_flee_in_flight_keeps_request() {
    let mut c = PetController::standard();
    c.step(&input(0, IN_ZONE), None);
    let o = c.step(&input(1, IN_ZONE), None);
    assert!(c.should_flee);
    assert_eq!(c.flee.step, 1);
    assert_eq!(c.flee.start, p(200, 100));
    assert_eq!(o.position, Some(p(200, 100)));
}

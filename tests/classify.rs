use mouse_click::{Click, ClickTracker, Kind, Point, Timestamp};

fn at(x: f32, y: f32) -> Point {
    Point::from_bits(x.to_bits(), y.to_bits())
}

fn ms(millis: u64) -> Timestamp {
    Timestamp::from_millis(millis)
}

#[test]
fn scenario_rapid_presses_double_then_triple() {
    let p = at(10.0, 10.0);
    let first = Click::new(p, None, ms(0));
    assert_eq!(first.kind(), Kind::Single);
    let second = Click::new(p, Some(first), ms(150));
    assert_eq!(second.kind(), Kind::Double);
    let third = Click::new(p, Some(second), ms(350));
    assert_eq!(third.kind(), Kind::Triple);
}

#[test]
fn scenario_moved_press_is_single() {
    let first = Click::new(at(10.0, 10.0), None, ms(0));
    assert_eq!(first.kind(), Kind::Single);
    let second = Click::new(at(20.0, 10.0), Some(first), ms(50));
    assert_eq!(second.kind(), Kind::Single);
}

#[test]
fn scenario_window_exceeded_is_single() {
    let p = at(5.0, 5.0);
    let first = Click::new(p, None, ms(0));
    assert_eq!(first.kind(), Kind::Single);
    let second = Click::new(p, Some(first), ms(305));
    assert_eq!(second.kind(), Kind::Single);
}

#[test]
fn scenario_four_rapid_presses() {
    let p = at(3.5, -7.25);
    let mut tracker = ClickTracker::new();
    let kinds: Vec<Kind> = [0u64, 100, 200, 300]
        .iter()
        .map(|&t| tracker.press(p, ms(t)).kind())
        .collect();
    assert_eq!(kinds, vec![Kind::Single, Kind::Double, Kind::Triple, Kind::Double]);
}

#[test]
fn first_press_is_single_anywhere() {
    for (x, y) in [(0.0f32, 0.0f32), (-1.5, 2.0), (1.0e9, -3.0e-9)] {
        for t in [0u64, 1, 1_000_000] {
            assert_eq!(Click::new(at(x, y), None, ms(t)).kind(), Kind::Single);
        }
    }
}

#[test]
fn one_unit_away_resets_streak() {
    let first = Click::new(at(10.0, 10.0), None, ms(0));
    let double = Click::new(at(10.0, 10.0), Some(first), ms(10));
    assert_eq!(double.kind(), Kind::Double);
    assert_eq!(Click::new(at(11.0, 10.0), Some(double), ms(20)).kind(), Kind::Single);
    assert_eq!(Click::new(at(10.0, 9.0), Some(double), ms(20)).kind(), Kind::Single);
}

#[test]
fn double_and_triple_alternate() {
    let p = at(1.0, 2.0);
    let mut click = Click::new(p, None, ms(0));
    let mut expected = Vec::new();
    let mut got = Vec::new();
    for i in 1..=9u64 {
        click = Click::new(p, Some(click), ms(i * 250));
        got.push(click.kind());
        expected.push(if i % 2 == 1 { Kind::Double } else { Kind::Triple });
    }
    assert_eq!(got, expected);
}

#[test]
fn window_is_inclusive_at_300_ms() {
    let p = at(4.0, 4.0);
    let first = Click::new(p, None, ms(1_000));
    assert_eq!(Click::new(p, Some(first), ms(1_300)).kind(), Kind::Double);
    assert_eq!(Click::new(p, Some(first), ms(1_301)).kind(), Kind::Single);
}

#[test]
fn window_is_exact_to_the_nanosecond() {
    let p = at(4.0, 4.0);
    let first = Click::new(p, None, Timestamp::from_nanos(0));
    let on_edge = Click::new(p, Some(first), Timestamp::from_nanos(300_000_000));
    assert_eq!(on_edge.kind(), Kind::Double);
    let just_past = Click::new(p, Some(first), Timestamp::from_nanos(300_000_001));
    assert_eq!(just_past.kind(), Kind::Single);
    let half_past = Click::new(p, Some(first), Timestamp::from_nanos(300_500_000));
    assert_eq!(half_past.kind(), Kind::Single);
    let almost_next = Click::new(p, Some(first), Timestamp::from_nanos(300_999_999));
    assert_eq!(almost_next.kind(), Kind::Single);
}

#[test]
fn earlier_timestamp_counts_as_no_time() {
    let p = at(4.0, 4.0);
    let first = Click::new(p, None, ms(5_000));
    assert_eq!(Click::new(p, Some(first), ms(1_000)).kind(), Kind::Double);
}

#[test]
fn repeated_classification_gives_same_kind() {
    let p = at(8.0, 8.0);
    let first = Click::new(p, None, ms(0));
    let second = Click::new(p, Some(first), ms(100));
    let a = Click::new(p, Some(second), ms(200));
    let b = Click::new(p, Some(second), ms(200));
    assert_eq!(a.kind(), b.kind());
    assert_eq!(a.kind(), Kind::Triple);
    assert_eq!(second.kind(), Kind::Double);
    assert_eq!(second.time(), ms(100));
    let c = Click::new(p, Some(second), ms(250));
    assert_eq!(a.kind(), c.kind());
}

#[test]
fn click_keeps_position_and_time() {
    let c = Click::new(at(-2.0, 6.5), None, Timestamp::from_nanos(42));
    assert_eq!(c.position().x_bits, (-2.0f32).to_bits());
    assert_eq!(c.position().y_bits, 6.5f32.to_bits());
    assert_eq!(c.time(), Timestamp::from_nanos(42));
}

#[test]
fn signed_zeros_are_the_same_position() {
    let first = Click::new(at(0.0, -0.0), None, ms(0));
    assert_eq!(Click::new(at(-0.0, 0.0), Some(first), ms(1)).kind(), Kind::Double);
    assert!(at(0.0, 0.0).same_position(&at(-0.0, -0.0)));
}

#[test]
fn nan_position_never_continues_a_streak() {
    let p = at(f32::NAN, 1.0);
    assert!(!p.same_position(&p));
    let first = Click::new(p, None, ms(0));
    assert_eq!(Click::new(p, Some(first), ms(1)).kind(), Kind::Single);
}

#[test]
fn nanos_since_saturates() {
    let a = Timestamp::from_nanos(1_500_000);
    let b = Timestamp::from_nanos(4_400_000);
    assert_eq!(b.nanos_since(&a), 2_900_000);
    assert_eq!(a.nanos_since(&b), 0);
    assert_eq!(ms(7).nanos, 7_000_000);
}

#[test]
fn tracker_remembers_and_resets() {
    let p = at(9.0, 9.0);
    let mut tracker = ClickTracker::new();
    assert!(tracker.last().is_none());
    assert_eq!(tracker.press(p, ms(0)).kind(), Kind::Single);
    assert_eq!(tracker.press(p, ms(100)).kind(), Kind::Double);
    assert_eq!(tracker.last().map(|c| c.kind()), Some(Kind::Double));
    tracker.reset();
    assert!(tracker.last().is_none());
    assert_eq!(tracker.press(p, ms(150)).kind(), Kind::Single);
}

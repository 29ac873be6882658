use build_n_fight::handle::Handle;
use build_n_fight::position::{blend_axis, gap, neighbor_steps, Position};

#[test]
fn keys_round_trip() {
    let p = Position::new(-1, 2, -3);
    assert_eq!(p.to_key(), (-1, 2, -3));
    assert_eq!(Position::from_key((-1, 2, -3)), p);
    assert_eq!(Handle::new(5).bits(), 5);
}

#[test]
fn manhattan_distance_is_exact() {
    let a = Position::new(1, -2, 3);
    let b = Position::new(-4, 6, 3);
    assert_eq!(a.manhattan_distance(b), 13);
    assert_eq!(b.manhattan_distance(a), 13);
    assert_eq!(a.manhattan_distance(a), 0);
    assert_eq!(gap(i32::MIN, i32::MAX), u32::MAX as u64);
}

#[test]
fn within_range_tests_each_axis() {
    let c = Position::new(0, 0, 0);
    assert!(Position::new(3, -3, 3).within_range(c, 3));
    assert!(!Position::new(4, 0, 0).within_range(c, 3));
    assert!(!Position::new(0, 0, -4).within_range(c, 3));
    assert!(c.within_range(c, 0));
    assert!(!c.within_range(c, -1));
    assert!(Position::new(i32::MAX, 0, 0).within_range(Position::new(0, 0, 0), i32::MAX));
    assert!(!Position::new(i32::MAX, 0, 0).within_range(Position::new(-1, 0, 0), i32::MAX));
}

#[test]
fn offset_stays_in_the_grid() {
    let p = Position::new(i32::MAX, 0, i32::MIN);
    assert_eq!(p.offset(Position::new(-1, 1, 1)), Some(Position::new(i32::MAX - 1, 1, i32::MIN + 1)));
    assert_eq!(p.offset(Position::new(1, 0, 0)), None);
    assert_eq!(p.offset(Position::new(0, 0, -1)), None);
}

#[test]
fn dictionary_order() {
    assert!(Position::new(0, 9, 9).is_before(Position::new(1, 0, 0)));
    assert!(Position::new(1, 0, 9).is_before(Position::new(1, 1, 0)));
    assert!(Position::new(1, 1, 0).is_before(Position::new(1, 1, 1)));
    assert!(!Position::new(1, 1, 1).is_before(Position::new(1, 1, 1)));
    assert!(!Position::new(1, 1, 1).is_before(Position::new(1, 1, 0)));
}

#[test]
fn six_neighbors_in_order() {
    assert_eq!(
        neighbor_steps(),
        [
            Position::new(1, 0, 0),
            Position::new(-1, 0, 0),
            Position::new(0, 1, 0),
            Position::new(0, -1, 0),
            Position::new(0, 0, 1),
            Position::new(0, 0, -1),
        ]
    );
}

#[test]
fn interpolation() {
    let one = 1_000_000u64;
    assert_eq!(blend_axis(0, 10, 500_000, one), 5);
    assert_eq!(blend_axis(0, 11, 500_000, one), 5);
    assert_eq!(blend_axis(0, -11, 500_000, one), -5);
    assert_eq!(blend_axis(-7, -7, 123_456, one), -7);
    assert_eq!(blend_axis(10, 20, 0, one), 10);
    assert_eq!(blend_axis(10, 20, one, one), 20);
    assert_eq!(blend_axis(0, 10, 2 * one, one), 20);
    assert_eq!(blend_axis(0, i32::MAX, 2 * one, one), i32::MAX);
    assert_eq!(blend_axis(0, i32::MAX, u64::MAX, one), i32::MAX);
    assert_eq!(blend_axis(i32::MAX, 0, u64::MAX, one), i32::MIN);
    assert_eq!(
        Position::new(0, 0, 0).interpolate(Position::new(4, -4, 9), 250_000, one),
        Position::new(1, -1, 2)
    );
}

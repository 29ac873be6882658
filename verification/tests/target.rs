use build_n_fight::flow::target::{best_in_box, TargetField};
use build_n_fight::flow::target_values::{BREACH_POINT, KEEP};
use build_n_fight::position::Position;

#[test]
fn value_defaults_to_zero() {
    let field = TargetField::new();
    assert_eq!(field.value(Position::new(1, 2, 3)), 0);
    assert_eq!(field.highest_value_target(Position::new(0, 0, 0), i32::MAX), None);
}

#[test]
fn set_then_zero_leaves_no_entry() {
    let mut field = TargetField::new();
    let p = Position::new(4, 5, 6);
    field.set_value(p, KEEP);
    assert_eq!(field.value(p), 100);
    assert_eq!(field.highest_value_target(p, 0), Some((p, 100)));
    field.set_value(p, 0);
    assert_eq!(field.value(p), 0);
    assert_eq!(field.highest_value_target(p, 100), None);
    // Zero on a cell that was never set is harmless.
    field.set_value(Position::new(9, 9, 9), 0);
    assert_eq!(field.highest_value_target(p, 100), None);
}

#[test]
fn set_value_overwrites() {
    let mut field = TargetField::new();
    let p = Position::new(0, 0, 0);
    field.set_value(p, 30);
    field.set_value(p, 45);
    assert_eq!(field.value(p), 45);
    assert_eq!(field.highest_value_target(p, 1), Some((p, 45)));
}

#[test]
fn range_is_a_box_on_each_axis() {
    let mut field = TargetField::new();
    let from = Position::new(0, 0, 0);
    let corner = Position::new(5, -5, 5);
    let outside_x = Position::new(6, 0, 0);
    let outside_z = Position::new(0, 0, -6);
    field.set_value(corner, 10);
    field.set_value(outside_x, 90);
    field.set_value(outside_z, 95);
    // The corner is farther than 5 in a straight line, but within 5 on every axis.
    assert_eq!(field.highest_value_target(from, 5), Some((corner, 10)));
    assert_eq!(field.highest_value_target(from, 4), None);
    assert_eq!(field.highest_value_target(from, 6), Some((outside_z, 95)));
    assert_eq!(field.highest_value_target(from, -1), None);
}

#[test]
fn result_never_exceeds_range_on_any_axis() {
    let mut field = TargetField::new();
    let mut v: u32 = 1;
    for x in -6..=6 {
        for y in [-9, 0, 9] {
            for z in [-3, 3] {
                field.set_value(Position::new(x * 3, y, z * 2), v);
                v += 1;
            }
        }
    }
    for r in 0..20 {
        let from = Position::new(1, -1, 2);
        if let Some((p, value)) = field.highest_value_target(from, r) {
            assert!((p.x - from.x).abs() <= r);
            assert!((p.y - from.y).abs() <= r);
            assert!((p.z - from.z).abs() <= r);
            assert_eq!(field.value(p), value);
        }
    }
}

#[test]
fn ties_go_to_the_first_in_dictionary_order() {
    let a = Position::new(1, 9, 9);
    let b = Position::new(2, 0, 0);
    let c = Position::new(1, 9, 8);
    for order in [[a, b, c], [c, b, a], [b, a, c]] {
        let mut field = TargetField::new();
        for p in order {
            field.set_value(p, BREACH_POINT);
        }
        field.set_value(Position::new(0, 0, 0), 79);
        let first = field.highest_value_target(Position::new(0, 0, 0), 50);
        assert_eq!(first, Some((c, 80)));
        for _ in 0..5 {
            assert_eq!(field.highest_value_target(Position::new(0, 0, 0), 50), first);
        }
    }
}

#[test]
fn extreme_coordinates_do_not_overflow() {
    let mut field = TargetField::new();
    let far = Position::new(i32::MAX, i32::MAX, i32::MAX);
    field.set_value(far, 5);
    assert_eq!(field.highest_value_target(Position::new(i32::MIN, i32::MIN, i32::MIN), i32::MAX), None);
    assert_eq!(field.highest_value_target(Position::new(0, 0, 0), i32::MAX), Some((far, 5)));
}

#[test]
fn scan_picks_by_value_then_position() {
    let entries = vec![((3, 0, 0), 7u32), ((1, 0, 0), 9), ((0, 0, 0), 9), ((40, 0, 0), 99)];
    assert_eq!(best_in_box(&entries, Position::new(0, 0, 0), 10), Some(2));
    assert_eq!(best_in_box(&entries, Position::new(0, 0, 0), 40), Some(3));
    assert_eq!(best_in_box(&entries, Position::new(100, 100, 100), 10), None);
    assert_eq!(best_in_box(&Vec::new(), Position::new(0, 0, 0), 10), None);
}

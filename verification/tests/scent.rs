use build_n_fight::ai::scent::{ScentTrails, SCENT_CAP, SCENT_FLOOR};
use build_n_fight::handle::Handle;
use build_n_fight::position::Position;

// Intensities are held in millionths of a unit.
fn units(v: f64) -> u32 {
    (v * 1_000_000.0).round() as u32
}

#[test]
fn deposits_add_up() {
    let mut trails = ScentTrails::new();
    let p = Position::new(1, 1, 1);
    let nest = Handle::new(9);
    assert_eq!(trails.scent_at(p, nest), 0);
    assert!(!trails.has_trail(p, nest));
    trails.add_scent(p, nest, units(3.0));
    trails.add_scent(p, nest, units(4.0));
    assert_eq!(trails.scent_at(p, nest), units(7.0));
    assert_eq!(trails.scent_at(p, nest), 7_000_000);
    assert!(trails.has_trail(p, nest));
}

#[test]
fn deposits_are_capped_even_on_first_insert() {
    let mut trails = ScentTrails::new();
    let p = Position::new(0, 0, 0);
    let nest = Handle::new(1);
    trails.add_scent(p, nest, units(12.0));
    assert_eq!(trails.scent_at(p, nest), units(10.0));
    assert_eq!(trails.scent_at(p, nest), SCENT_CAP);
    trails.add_scent(p, nest, u32::MAX);
    assert_eq!(trails.scent_at(p, nest), SCENT_CAP);
    let q = Position::new(0, 0, 1);
    trails.add_scent(q, nest, units(6.0));
    trails.add_scent(q, nest, units(6.0));
    assert_eq!(trails.scent_at(q, nest), SCENT_CAP);
}

#[test]
fn scent_is_kept_per_owner() {
    let mut trails = ScentTrails::new();
    let p = Position::new(0, 0, 0);
    trails.add_scent(p, Handle::new(1), units(2.0));
    trails.add_scent(p, Handle::new(2), units(5.0));
    assert_eq!(trails.scent_at(p, Handle::new(1)), units(2.0));
    assert_eq!(trails.scent_at(p, Handle::new(2)), units(5.0));
    assert_eq!(trails.scent_at(p, Handle::new(3)), 0);
}

#[test]
fn faint_scent_is_pruned_by_decay() {
    let mut trails = ScentTrails::new();
    let p = Position::new(2, 2, 2);
    let nest = Handle::new(1);
    trails.add_scent(p, nest, units(0.009));
    assert!(trails.has_trail(p, nest));
    trails.decay(units(0.005));
    trails.decay(units(0.005));
    assert_eq!(trails.scent_at(p, nest), 0);
    assert!(!trails.has_trail(p, nest));
    assert_eq!(trails.strongest_direction(Position::new(1, 2, 2), nest), None);
}

#[test]
fn decay_subtracts_and_prunes_at_the_floor() {
    let mut trails = ScentTrails::new();
    let nest = Handle::new(1);
    let strong = Position::new(0, 0, 0);
    let edge = Position::new(1, 0, 0);
    let above = Position::new(2, 0, 0);
    trails.add_scent(strong, nest, units(3.0));
    trails.add_scent(edge, nest, units(1.0) + SCENT_FLOOR);
    trails.add_scent(above, nest, units(1.0) + SCENT_FLOOR + 1);
    trails.decay(units(1.0));
    assert_eq!(trails.scent_at(strong, nest), units(2.0));
    assert!(!trails.has_trail(edge, nest));
    assert_eq!(trails.scent_at(above, nest), SCENT_FLOOR + 1);
    trails.decay(0);
    assert_eq!(trails.scent_at(above, nest), SCENT_FLOOR + 1);
    trails.decay(u32::MAX);
    assert!(!trails.has_trail(strong, nest));
    assert!(!trails.has_trail(above, nest));
}

#[test]
fn tick_decays_a_hundredth_of_a_unit_per_second() {
    let mut trails = ScentTrails::new();
    let p = Position::new(0, 0, 0);
    let nest = Handle::new(1);
    trails.add_scent(p, nest, units(1.0));
    trails.tick(16);
    assert_eq!(trails.scent_at(p, nest), 1_000_000 - 160);
    for _ in 0..10 {
        trails.tick(100);
    }
    assert_eq!(trails.scent_at(p, nest), 1_000_000 - 160 - 10_000);
}

#[test]
fn strongest_direction_climbs_the_gradient() {
    let mut trails = ScentTrails::new();
    let nest = Handle::new(1);
    let pos = Position::new(5, 5, 5);
    assert_eq!(trails.strongest_direction(pos, nest), None);
    trails.add_scent(Position::new(5, 4, 5), nest, units(2.0));
    trails.add_scent(Position::new(5, 5, 6), nest, units(3.0));
    trails.add_scent(Position::new(6, 6, 5), nest, units(9.0));
    trails.add_scent(Position::new(4, 5, 5), Handle::new(2), units(9.0));
    assert_eq!(trails.strongest_direction(pos, nest), Some(Position::new(0, 0, 1)));
    // Scent at the cell itself is no direction.
    trails.add_scent(pos, nest, units(10.0));
    assert_eq!(trails.strongest_direction(pos, nest), Some(Position::new(0, 0, 1)));
}

#[test]
fn strongest_direction_takes_the_last_of_equals() {
    let mut trails = ScentTrails::new();
    let nest = Handle::new(1);
    let pos = Position::new(0, 0, 0);
    trails.add_scent(Position::new(1, 0, 0), nest, units(4.0));
    trails.add_scent(Position::new(0, -1, 0), nest, units(4.0));
    assert_eq!(trails.strongest_direction(pos, nest), Some(Position::new(0, -1, 0)));
    trails.add_scent(Position::new(0, 0, -1), nest, units(4.0));
    assert_eq!(trails.strongest_direction(pos, nest), Some(Position::new(0, 0, -1)));
}

#[test]
fn strongest_direction_at_the_edge_of_the_grid() {
    let mut trails = ScentTrails::new();
    let nest = Handle::new(1);
    let corner = Position::new(i32::MAX, i32::MIN, 0);
    assert_eq!(trails.strongest_direction(corner, nest), None);
    trails.add_scent(Position::new(i32::MAX - 1, i32::MIN, 0), nest, units(1.0));
    assert_eq!(trails.strongest_direction(corner, nest), Some(Position::new(-1, 0, 0)));
}

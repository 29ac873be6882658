use build_n_fight::flow::traversal::{TraversalField, UNKNOWN_COST};
use build_n_fight::position::Position;
use build_n_fight::world::tile::{AntStructureType, BuildMaterial, Tile, RUBBLE_COST};
use build_n_fight::world::{GameWorld, TileChangedEvent};

fn dirt(hp: u16) -> Tile {
    Tile::Dirt { hp, max_hp: 50 }
}

fn stone(hp: u16) -> Tile {
    Tile::Stone { hp, max_hp: 100 }
}

#[test]
fn unassigned_cell_costs_the_maximum_and_has_no_flow() {
    let field = TraversalField::new();
    for p in [Position::new(0, 0, 0), Position::new(-7, 3, -2), Position::new(i32::MAX, i32::MIN, 5)] {
        assert_eq!(field.cost(p), u32::MAX);
        assert_eq!(field.cost(p), UNKNOWN_COST);
        assert_eq!(field.flow_direction(p), None);
    }
}

#[test]
fn unassigned_cell_stays_unknown_after_recompute() {
    let mut world = GameWorld::new();
    world.set_tile(Position::new(0, 0, -1), dirt(50));
    let mut field = TraversalField::new();
    field.recalculate(&world);
    assert_eq!(field.cost(Position::new(0, 0, -1)), 50);
    // Same chunk, never written: open air.
    assert_eq!(field.cost(Position::new(1, 0, -1)), 1);
    // Another chunk, never touched: unknown.
    assert_eq!(field.cost(Position::new(0, 0, 0)), u32::MAX);
    assert_eq!(field.cost(Position::new(100, 100, 100)), u32::MAX);
    assert_eq!(field.flow_direction(Position::new(0, 0, -1)), None);
}

#[test]
fn cost_follows_durability() {
    assert_eq!(dirt(100).traversal_cost(), 100);
    assert_eq!(dirt(60).traversal_cost(), 60);
    assert_eq!(stone(100).traversal_cost(), 200);
    assert_eq!(stone(60).traversal_cost(), 120);
    let wall = Tile::Wall { hp: 150, max_hp: 150, material: BuildMaterial::Stone };
    assert_eq!(wall.traversal_cost(), 150);
    let floor = Tile::Floor { hp: 7, max_hp: 50, material: BuildMaterial::Wood };
    assert_eq!(floor.traversal_cost(), 7);
    assert_eq!(Tile::Air.traversal_cost(), 1);
    assert_eq!(Tile::Rubble.traversal_cost(), 3);
    let nest = Tile::AntStructure { hp: 40, structure_type: AntStructureType::Nest };
    assert_eq!(nest.traversal_cost(), 1);
}

#[test]
fn cost_moves_in_lock_step_with_damage() {
    let mut tile = stone(100);
    let mut last = tile.traversal_cost();
    for _ in 0..9 {
        assert!(!tile.damage(10));
        let now = tile.traversal_cost();
        assert_eq!(now + 20, last);
        last = now;
    }
    assert_eq!(tile, stone(10));
    assert!(tile.damage(10));
    assert_eq!(tile, Tile::Rubble);
    assert_eq!(tile.traversal_cost(), RUBBLE_COST);
}

#[test]
fn fast_patch_is_visible_before_recompute() {
    let mut field = TraversalField::new();
    let p = Position::new(3, 4, -2);
    field.apply_tile_change(&TileChangedEvent { position: p, old_tile: stone(100), new_tile: stone(60) });
    assert_eq!(field.cost(p), 120);
    assert!(field.is_dirty());
}

#[test]
fn change_without_cost_change_is_ignored() {
    let mut field = TraversalField::new();
    let p = Position::new(3, 4, -2);
    let a = Tile::Wall { hp: 50, max_hp: 50, material: BuildMaterial::Wood };
    let b = Tile::Floor { hp: 50, max_hp: 50, material: BuildMaterial::Wood };
    field.apply_tile_change(&TileChangedEvent { position: p, old_tile: a, new_tile: b });
    assert_eq!(field.cost(p), u32::MAX);
    assert!(!field.is_dirty());
}

#[test]
fn destroyed_cell_drops_to_the_rubble_cost_in_the_same_tick() {
    let p = Position::new(0, 0, -1);
    let mut world = GameWorld::new();
    world.set_tile(p, dirt(50));
    let mut field = TraversalField::new();
    field.mark_dirty();
    field.update(&world, &Vec::new());
    assert_eq!(field.cost(p), 50);
    assert!(!field.is_dirty());

    let change = build_n_fight::combat::damage::damage_tile(&mut world, p, 50).unwrap();
    assert_eq!(change.old_tile, dirt(50));
    assert_eq!(change.new_tile, Tile::Rubble);
    field.apply_tile_change(&change);
    // Before any recomputation the field already shows the floor.
    assert!(field.is_dirty());
    assert_eq!(field.cost(p), 3);
    field.update(&world, &Vec::new());
    assert_eq!(field.cost(p), 3);
    assert!(!field.is_dirty());
}

#[test]
fn update_recomputes_only_when_stale() {
    let p = Position::new(2, 2, 2);
    let mut world = GameWorld::new();
    world.set_tile(p, stone(10));
    let mut field = TraversalField::new();
    field.update(&world, &Vec::new());
    // Not stale and nothing changed: the terrain is not sampled.
    assert_eq!(field.cost(p), u32::MAX);
    let events = vec![TileChangedEvent { position: p, old_tile: Tile::Air, new_tile: stone(10) }];
    field.update(&world, &events);
    assert_eq!(field.cost(p), 20);
    assert_eq!(field.cost(Position::new(2, 2, 3)), 1);
}

#[test]
fn recompute_drops_stale_costs() {
    let mut field = TraversalField::new();
    let ghost = Position::new(500, 500, 500);
    field.apply_tile_change(&TileChangedEvent { position: ghost, old_tile: Tile::Air, new_tile: dirt(9) });
    assert_eq!(field.cost(ghost), 9);
    let world = GameWorld::new();
    field.recalculate(&world);
    assert_eq!(field.cost(ghost), u32::MAX);
}

#[test]
fn flow_direction_round_trip() {
    let mut field = TraversalField::new();
    let p = Position::new(1, 1, 1);
    field.set_flow_direction(p, Position::new(0, -1, 0));
    assert_eq!(field.flow_direction(p), Some(Position::new(0, -1, 0)));
    assert_eq!(field.flow_direction(Position::new(1, 1, 2)), None);
    assert_eq!(field.cost(p), u32::MAX);
    field.set_flow_direction(p, Position::new(1, 0, 0));
    assert_eq!(field.flow_direction(p), Some(Position::new(1, 0, 0)));
}

#[test]
fn recompute_covers_every_cell_of_every_chunk() {
    let mut world = GameWorld::new();
    world.set_tile(Position::new(-1, -1, -1), stone(5));
    world.set_tile(Position::new(16, 0, 0), dirt(8));
    let mut field = TraversalField::new();
    field.recalculate(&world);
    assert_eq!(field.cost(Position::new(-1, -1, -1)), 10);
    assert_eq!(field.cost(Position::new(-16, -16, -16)), 1);
    assert_eq!(field.cost(Position::new(-17, -16, -16)), u32::MAX);
    assert_eq!(field.cost(Position::new(16, 0, 0)), 8);
    assert_eq!(field.cost(Position::new(31, 15, 15)), 1);
    assert_eq!(field.cost(Position::new(32, 15, 15)), u32::MAX);
    assert_eq!(field.cost(Position::new(15, 0, 0)), u32::MAX);
}

use build_n_fight::position::Position;
use build_n_fight::world::chunk::{Chunk, LocalPosition, CHUNK_CELLS, CHUNK_SIZE};
use build_n_fight::world::generate::{generate, lay_column, WORLD_SIZE};
use build_n_fight::world::tile::{AntStructureType, BuildMaterial, Tile};
use build_n_fight::world::z_level::CurrentZLevel;
use build_n_fight::world::{locate, locate_axis, world_position, GameWorld};

#[test]
fn material_durability() {
    assert_eq!(BuildMaterial::Wood.base_hp(), 50);
    assert_eq!(BuildMaterial::Stone.base_hp(), 150);
    assert_eq!(BuildMaterial::Metal.base_hp(), 300);
    assert_eq!(BuildMaterial::default(), BuildMaterial::Wood);
    assert_eq!(Tile::default(), Tile::Air);
    assert_eq!(AntStructureType::default(), AntStructureType::Tunnel);
}

#[test]
fn tile_predicates() {
    let dirt = Tile::Dirt { hp: 5, max_hp: 50 };
    let stone = Tile::Stone { hp: 5, max_hp: 100 };
    let wall = Tile::Wall { hp: 5, max_hp: 50, material: BuildMaterial::Wood };
    let floor = Tile::Floor { hp: 5, max_hp: 50, material: BuildMaterial::Metal };
    let nest = Tile::AntStructure { hp: 5, structure_type: AntStructureType::Nest };
    for (tile, passable, diggable, destructible) in [
        (Tile::Air, true, false, false),
        (dirt, false, true, true),
        (stone, false, true, true),
        (wall, false, false, true),
        (floor, false, false, true),
        (Tile::Rubble, true, false, false),
        (nest, true, false, true),
    ] {
        assert_eq!(tile.is_passable(), passable);
        assert_eq!(tile.is_diggable(), diggable);
        assert_eq!(tile.is_destructible(), destructible);
        assert_eq!(tile.hp(), if destructible { Some(5) } else { None });
    }
}

#[test]
fn damage_reduces_or_destroys() {
    let mut wall = Tile::Wall { hp: 50, max_hp: 50, material: BuildMaterial::Wood };
    assert!(!wall.damage(49));
    assert_eq!(wall, Tile::Wall { hp: 1, max_hp: 50, material: BuildMaterial::Wood });
    assert!(wall.damage(1));
    assert_eq!(wall, Tile::Rubble);
    assert!(!wall.damage(100));
    assert_eq!(wall, Tile::Rubble);
    let mut air = Tile::Air;
    assert!(!air.damage(u16::MAX));
    assert_eq!(air, Tile::Air);
    let mut nest = Tile::AntStructure { hp: 3, structure_type: AntStructureType::Storage };
    assert!(!nest.damage(0));
    assert!(nest.damage(u16::MAX));
    assert_eq!(nest, Tile::Rubble);
}

#[test]
fn tile_glyphs() {
    let glyphs: Vec<char> = [
        Tile::Air,
        Tile::Dirt { hp: 1, max_hp: 1 },
        Tile::Stone { hp: 1, max_hp: 1 },
        Tile::Wall { hp: 1, max_hp: 1, material: BuildMaterial::Wood },
        Tile::Wall { hp: 1, max_hp: 1, material: BuildMaterial::Stone },
        Tile::Wall { hp: 1, max_hp: 1, material: BuildMaterial::Metal },
        Tile::Floor { hp: 1, max_hp: 1, material: BuildMaterial::Metal },
        Tile::Rubble,
        Tile::AntStructure { hp: 1, structure_type: AntStructureType::Tunnel },
        Tile::AntStructure { hp: 1, structure_type: AntStructureType::Nest },
        Tile::AntStructure { hp: 1, structure_type: AntStructureType::Storage },
    ]
    .iter()
    .map(|t| t.to_ascii())
    .collect();
    assert_eq!(glyphs, vec!['.', ',', '#', '=', 'H', 'M', '_', '%', 'o', 'O', 's']);
}

#[test]
fn chunk_slots() {
    assert_eq!(CHUNK_SIZE, 16);
    assert_eq!(CHUNK_CELLS, 4096);
    let p = LocalPosition::new(1, 2, 3);
    assert!(p.is_in_chunk());
    assert_eq!(p.to_slot(), 256 + 32 + 3);
    assert_eq!(LocalPosition::from_slot(256 + 32 + 3), p);
    assert_eq!(LocalPosition::from_slot(4095), LocalPosition::new(15, 15, 15));
    assert!(!LocalPosition::new(16, 0, 0).is_in_chunk());
    assert!(!LocalPosition::new(0, 0, 16).is_in_chunk());
}

#[test]
fn chunk_get_and_set() {
    let mut chunk = Chunk::new();
    assert!(chunk.is_dirty());
    assert_eq!(*chunk.get_tile(LocalPosition::new(15, 15, 15)), Tile::Air);
    chunk.set_tile(LocalPosition::new(15, 0, 15), Tile::Rubble);
    assert_eq!(*chunk.get_tile(LocalPosition::new(15, 0, 15)), Tile::Rubble);
    assert_eq!(*chunk.get_tile(LocalPosition::new(15, 15, 0)), Tile::Air);
    let cells = chunk.iter_tiles();
    assert_eq!(cells.len(), 4096);
    assert_eq!(cells[0], (LocalPosition::new(0, 0, 0), Tile::Air));
    assert_eq!(cells[1], (LocalPosition::new(0, 0, 1), Tile::Air));
    assert_eq!(cells[16], (LocalPosition::new(0, 1, 0), Tile::Air));
    assert_eq!(cells[15 * 256 + 15], (LocalPosition::new(15, 0, 15), Tile::Rubble));
    let filled = Chunk::filled(Tile::Rubble);
    assert!(filled.iter_tiles().iter().all(|(_, t)| *t == Tile::Rubble));
    assert_eq!(*Chunk::default().get_tile(LocalPosition::new(0, 0, 0)), Tile::Air);
}

#[test]
fn cells_split_into_chunk_and_offset() {
    assert_eq!(locate_axis(0), (0, 0));
    assert_eq!(locate_axis(15), (0, 15));
    assert_eq!(locate_axis(16), (1, 0));
    assert_eq!(locate_axis(-1), (-1, 15));
    assert_eq!(locate_axis(-16), (-1, 0));
    assert_eq!(locate_axis(-17), (-2, 15));
    assert_eq!(locate_axis(i32::MAX), (0x7ff_ffff, 15));
    assert_eq!(locate_axis(i32::MIN), (-0x800_0000, 0));
    let (chunk, local) = locate(Position::new(-1, 33, 0));
    assert_eq!(chunk, (-1, 2, 0));
    assert_eq!(local, LocalPosition::new(15, 1, 0));
    assert_eq!(world_position(chunk, local), Position::new(-1, 33, 0));
    assert_eq!(
        world_position((0x7ff_ffff, -0x800_0000, 0), LocalPosition::new(15, 0, 7)),
        Position::new(i32::MAX, i32::MIN, 7)
    );
}

#[test]
fn world_get_and_set() {
    let mut world = GameWorld::new();
    assert_eq!(world.surface_z(), 0);
    assert_eq!(world.chunk_count(), 0);
    let p = Position::new(-3, 40, -2);
    assert_eq!(world.get_tile(p), None);
    world.set_tile(p, Tile::Rubble);
    assert_eq!(world.get_tile(p), Some(&Tile::Rubble));
    assert_eq!(world.chunk_count(), 1);
    assert_eq!(world.chunk_key(0), (-1, 2, -1));
    // The rest of the chunk is open air; other chunks hold nothing.
    assert_eq!(world.get_tile(Position::new(-16, 32, -16)), Some(&Tile::Air));
    assert_eq!(world.get_tile(Position::new(-1, 47, -1)), Some(&Tile::Air));
    assert_eq!(world.get_tile(Position::new(0, 40, -2)), None);
    assert_eq!(world.get_tile(Position::new(-3, 40, 0)), None);
    world.set_tile(p, Tile::Air);
    assert_eq!(world.get_tile(p), Some(&Tile::Air));
    assert_eq!(world.chunk_count(), 1);
    world.set_tile(Position::new(i32::MAX, i32::MIN, 0), Tile::Rubble);
    assert_eq!(world.chunk_count(), 2);
    assert_eq!(world.get_tile(Position::new(i32::MAX, i32::MIN, 0)), Some(&Tile::Rubble));
    assert_eq!(*world.chunk(1).get_tile(LocalPosition::new(15, 0, 0)), Tile::Rubble);
    world.set_surface_z(4);
    assert_eq!(world.surface_z(), 4);
    assert_eq!(world.get_tile(p), Some(&Tile::Air));
}

#[test]
fn generated_world_has_three_layers() {
    let mut world = GameWorld::default();
    generate(&mut world, WORLD_SIZE);
    for (x, y) in [(0, 0), (31, 31), (0, 31), (17, 5)] {
        assert_eq!(world.get_tile(Position::new(x, y, 0)), Some(&Tile::Air));
        assert_eq!(world.get_tile(Position::new(x, y, -1)), Some(&Tile::Dirt { hp: 50, max_hp: 50 }));
        assert_eq!(
            world.get_tile(Position::new(x, y, -2)),
            Some(&Tile::Stone { hp: 100, max_hp: 100 })
        );
        assert_eq!(world.get_tile(Position::new(x, y, -3)), Some(&Tile::Air));
    }
    assert_eq!(world.get_tile(Position::new(32, 0, 0)), None);
    assert_eq!(world.get_tile(Position::new(-1, 0, 0)), None);
    assert_eq!(world.chunk_count(), 8);
}

#[test]
fn generate_nothing_for_an_empty_square() {
    let mut world = GameWorld::new();
    generate(&mut world, 0);
    generate(&mut world, -5);
    assert_eq!(world.chunk_count(), 0);
    lay_column(&mut world, -1, -1);
    assert_eq!(world.get_tile(Position::new(-1, -1, -2)), Some(&Tile::Stone { hp: 100, max_hp: 100 }));
    assert_eq!(world.chunk_count(), 2);
}

#[test]
fn layers_stop_at_the_edges() {
    let mut z = CurrentZLevel::default();
    assert_eq!(z.level, 0);
    z.descend();
    z.descend();
    assert_eq!(z.level, -2);
    z.ascend();
    assert_eq!(z.level, -1);
    let mut low = CurrentZLevel { level: i32::MIN };
    low.descend();
    assert_eq!(low.level, i32::MIN);
    let mut high = CurrentZLevel { level: i32::MAX };
    high.ascend();
    assert_eq!(high.level, i32::MAX);
}

use build_n_fight::handle::Handle;
use build_n_fight::player::away_team::{AwayTeam, Mission, Supplies};
use build_n_fight::player::building::{
    build, floor_of, wall_of, BuildEvent, BuildMode, BuildOutcome, BuildableType,
};
use build_n_fight::player::digging::{dig, DigOutcome};
use build_n_fight::player::input::{handle_key, PlayerKey};
use build_n_fight::player::PlayerResources;
use build_n_fight::position::Position;
use build_n_fight::world::tile::{BuildMaterial, Tile};
use build_n_fight::world::z_level::CurrentZLevel;
use build_n_fight::world::{GameWorld, TileChangedEvent};

#[test]
fn starting_resources() {
    assert_eq!(PlayerResources::new(), PlayerResources { tungsten: 100, iron: 200, wood: 500 });
    assert_eq!(PlayerResources::default(), PlayerResources { tungsten: 0, iron: 0, wood: 0 });
}

#[test]
fn buildable_tables() {
    let all = [
        BuildableType::WoodWall,
        BuildableType::StoneWall,
        BuildableType::MetalWall,
        BuildableType::WoodFloor,
        BuildableType::StoneFloor,
        BuildableType::Turret,
    ];
    assert_eq!(
        all.map(|b| b.cost()),
        [(0, 0, 10), (0, 5, 0), (5, 10, 0), (0, 0, 5), (0, 3, 0), (2, 5, 5)]
    );
    assert_eq!(
        BuildableType::MetalWall.to_tile(),
        Some(Tile::Wall { hp: 300, max_hp: 300, material: BuildMaterial::Metal })
    );
    assert_eq!(
        BuildableType::StoneFloor.to_tile(),
        Some(Tile::Floor { hp: 150, max_hp: 150, material: BuildMaterial::Stone })
    );
    assert_eq!(BuildableType::WoodWall.to_tile(), Some(wall_of(BuildMaterial::Wood)));
    assert_eq!(BuildableType::WoodFloor.to_tile(), Some(floor_of(BuildMaterial::Wood)));
    assert_eq!(BuildableType::Turret.to_tile(), None);
    assert_eq!(BuildableType::default(), BuildableType::WoodWall);
    assert_eq!(BuildMode::default(), BuildMode { active: false, selected: BuildableType::WoodWall });
}

#[test]
fn building_costs_resources_and_changes_terrain() {
    let mut world = GameWorld::new();
    let mut stock = PlayerResources::new();
    let p = Position::new(2, 2, 0);
    let order = BuildEvent { position: p, buildable: BuildableType::MetalWall };
    let wall = Tile::Wall { hp: 300, max_hp: 300, material: BuildMaterial::Metal };
    assert_eq!(
        build(&mut world, &mut stock, &order),
        BuildOutcome::Built {
            change: TileChangedEvent { position: p, old_tile: Tile::Air, new_tile: wall }
        }
    );
    assert_eq!(stock, PlayerResources { tungsten: 95, iron: 190, wood: 500 });
    assert_eq!(world.get_tile(p), Some(&wall));
    assert_eq!(build(&mut world, &mut stock, &order), BuildOutcome::Occupied);
    assert_eq!(stock, PlayerResources { tungsten: 95, iron: 190, wood: 500 });
    world.set_tile(p, Tile::Rubble);
    let floor = BuildEvent { position: p, buildable: BuildableType::WoodFloor };
    match build(&mut world, &mut stock, &floor) {
        BuildOutcome::Built { change } => assert_eq!(change.old_tile, Tile::Rubble),
        other => panic!("unexpected outcome {:?}", other),
    }
    assert_eq!(stock.wood, 495);
}

#[test]
fn building_needs_resources() {
    let mut world = GameWorld::new();
    let mut stock = PlayerResources { tungsten: 4, iron: 100, wood: 100 };
    let p = Position::new(0, 0, 0);
    let order = BuildEvent { position: p, buildable: BuildableType::MetalWall };
    assert_eq!(build(&mut world, &mut stock, &order), BuildOutcome::TooCostly);
    assert_eq!(world.get_tile(p), None);
    assert_eq!(stock, PlayerResources { tungsten: 4, iron: 100, wood: 100 });
    // The cost is looked at before the cell.
    world.set_tile(p, Tile::Dirt { hp: 1, max_hp: 1 });
    assert_eq!(build(&mut world, &mut stock, &order), BuildOutcome::TooCostly);
    let exact = BuildEvent { position: Position::new(1, 0, 0), buildable: BuildableType::Turret };
    let mut just = PlayerResources { tungsten: 2, iron: 5, wood: 5 };
    assert_eq!(build(&mut world, &mut just, &exact), BuildOutcome::Mounted);
    assert_eq!(just, PlayerResources { tungsten: 0, iron: 0, wood: 0 });
    assert_eq!(world.get_tile(Position::new(1, 0, 0)), Some(&Tile::Air));
}

#[test]
fn digging() {
    let mut world = GameWorld::new();
    let mut stock = PlayerResources::new();
    let p = Position::new(0, 0, -1);
    assert_eq!(dig(&mut world, &mut stock, p), DigOutcome::Nothing);
    let stone = Tile::Stone { hp: 100, max_hp: 100 };
    world.set_tile(p, stone);
    assert_eq!(
        dig(&mut world, &mut stock, p),
        DigOutcome::Dug {
            change: TileChangedEvent { position: p, old_tile: stone, new_tile: Tile::Air }
        }
    );
    assert_eq!(stock.iron, 201);
    assert_eq!(world.get_tile(p), Some(&Tile::Air));
    assert_eq!(dig(&mut world, &mut stock, p), DigOutcome::NotDiggable);
    let dirt = Tile::Dirt { hp: 50, max_hp: 50 };
    world.set_tile(p, dirt);
    assert!(matches!(dig(&mut world, &mut stock, p), DigOutcome::Dug { .. }));
    assert_eq!(stock, PlayerResources { tungsten: 100, iron: 201, wood: 500 });
    world.set_tile(p, Tile::Wall { hp: 1, max_hp: 1, material: BuildMaterial::Wood });
    assert_eq!(dig(&mut world, &mut stock, p), DigOutcome::NotDiggable);
}

#[test]
fn away_team_turns_back_when_the_food_is_gone() {
    let members = vec![Handle::new(1), Handle::new(2)];
    let mission = Mission::Mine { target_deposit: Position::new(0, 0, -9) };
    let bare = AwayTeam::new(members.clone(), mission);
    assert_eq!(bare.size(), 2);
    assert_eq!(bare.supplies, Supplies::default());
    assert!(bare.needs_resupply());
    let mut team = bare.with_supplies(Supplies { explosives: 1, sealant: 2, ammo: 3, food: 1_000 });
    assert!(!team.needs_resupply());
    team.tick(999);
    assert_eq!(team.mission, mission);
    assert_eq!(team.supplies.food, 1);
    team.tick(16);
    assert_eq!(team.mission, Mission::Return);
    assert_eq!(team.supplies, Supplies { explosives: 1, sealant: 2, ammo: 3, food: 0 });
    assert_eq!(team.members, members);
}

#[test]
fn keys() {
    let mut mode = BuildMode::default();
    let mut z = CurrentZLevel::default();
    handle_key(&mut mode, &mut z, PlayerKey::Select(BuildableType::Turret));
    assert_eq!(mode.selected, BuildableType::WoodWall);
    handle_key(&mut mode, &mut z, PlayerKey::ToggleBuild);
    assert!(mode.active);
    handle_key(&mut mode, &mut z, PlayerKey::Select(BuildableType::Turret));
    assert_eq!(mode.selected, BuildableType::Turret);
    handle_key(&mut mode, &mut z, PlayerKey::LayerDown);
    handle_key(&mut mode, &mut z, PlayerKey::LayerDown);
    handle_key(&mut mode, &mut z, PlayerKey::LayerUp);
    assert_eq!(z.level, -1);
    handle_key(&mut mode, &mut z, PlayerKey::ToggleBuild);
    assert_eq!(mode, BuildMode { active: false, selected: BuildableType::Turret });
}

use build_n_fight::position::Position;
use build_n_fight::render::ascii::{ascii_glyph, ascii_row, render_layer};
use build_n_fight::visibility::fog::{cell_at_offset, FogOfWar, TileVisibility};
use build_n_fight::visibility::sonar::{
    alarm_for, count_contact, group_contacts, nudged, ping, place_contacts, record_ping,
    total_contacts, SonarAlarm, SonarContact, SonarDevice, SonarPhase,
};
use build_n_fight::world::tile::Tile;
use build_n_fight::world::GameWorld;

#[test]
fn surface_is_always_visible() {
    let mut fog = FogOfWar::new();
    assert_eq!(fog.surface_z(), 0);
    assert_eq!(fog.get(Position::new(0, 0, 0)), TileVisibility::Visible);
    assert_eq!(fog.get(Position::new(0, 0, 5)), TileVisibility::Visible);
    assert_eq!(fog.get(Position::new(0, 0, -1)), TileVisibility::Unknown);
    fog.set(Position::new(0, 0, 3), TileVisibility::Revealed);
    assert_eq!(fog.get(Position::new(0, 0, 3)), TileVisibility::Visible);
    fog.set_surface_z(4);
    assert_eq!(fog.get(Position::new(0, 0, 3)), TileVisibility::Revealed);
    assert_eq!(TileVisibility::default(), TileVisibility::Unknown);
}

#[test]
fn visibility_codes_round_trip() {
    for v in [
        TileVisibility::Unknown,
        TileVisibility::Revealed,
        TileVisibility::Visible,
        TileVisibility::SonarContact,
    ] {
        assert_eq!(TileVisibility::from_code(v.to_code()), v);
    }
    assert_eq!(TileVisibility::from_code(99), TileVisibility::Unknown);
}

#[test]
fn set_and_get() {
    let mut fog = FogOfWar::default();
    let p = Position::new(1, 2, -3);
    for v in [
        TileVisibility::SonarContact,
        TileVisibility::Visible,
        TileVisibility::Revealed,
        TileVisibility::Unknown,
    ] {
        fog.set(p, v);
        assert_eq!(fog.get(p), v);
        assert_eq!(fog.get(Position::new(1, 2, -4)), TileVisibility::Unknown);
    }
}

#[test]
fn reveal_around_touches_only_the_unknown() {
    let mut fog = FogOfWar::new();
    let center = Position::new(0, 0, -5);
    fog.set(Position::new(1, 1, -5), TileVisibility::Visible);
    fog.set(Position::new(-2, 0, -5), TileVisibility::SonarContact);
    fog.reveal_around(center, 2);
    assert_eq!(fog.get(Position::new(1, 1, -5)), TileVisibility::Visible);
    assert_eq!(fog.get(Position::new(-2, 0, -5)), TileVisibility::SonarContact);
    for p in [center, Position::new(2, 2, -3), Position::new(-2, -2, -7), Position::new(0, 2, -6)] {
        assert_eq!(fog.get(p), TileVisibility::Revealed);
    }
    for p in [Position::new(3, 0, -5), Position::new(0, 0, -8), Position::new(0, -3, -5)] {
        assert_eq!(fog.get(p), TileVisibility::Unknown);
    }
    let mut none = FogOfWar::new();
    none.reveal_around(center, -1);
    assert_eq!(none.get(center), TileVisibility::Unknown);
    none.reveal_around(center, 0);
    assert_eq!(none.get(center), TileVisibility::Revealed);
    assert_eq!(none.get(Position::new(1, 0, -5)), TileVisibility::Unknown);
}

#[test]
fn reveal_at_the_edge_of_the_grid() {
    let mut fog = FogOfWar::new();
    let corner = Position::new(i32::MAX, i32::MIN, i32::MIN);
    fog.reveal_around(corner, 1);
    assert_eq!(fog.get(corner), TileVisibility::Revealed);
    assert_eq!(fog.get(Position::new(i32::MAX - 1, i32::MIN + 1, i32::MIN + 1)), TileVisibility::Revealed);
    assert_eq!(cell_at_offset(corner, 1, 0, 0), None);
    assert_eq!(cell_at_offset(corner, -1, 1, 1), Some(Position::new(i32::MAX - 1, i32::MIN + 1, i32::MIN + 1)));
}

#[test]
fn mark_visible_is_flat() {
    let mut fog = FogOfWar::new();
    let center = Position::new(10, 10, -5);
    fog.mark_visible(center, 3);
    for p in [center, Position::new(13, 7, -4), Position::new(7, 13, -6)] {
        assert_eq!(fog.get(p), TileVisibility::Visible);
    }
    for p in [Position::new(10, 10, -3), Position::new(10, 10, -7), Position::new(14, 10, -5)] {
        assert_eq!(fog.get(p), TileVisibility::Unknown);
    }
}

#[test]
fn clear_visible_fades_view_and_contacts() {
    let mut fog = FogOfWar::new();
    fog.set(Position::new(0, 0, -1), TileVisibility::Visible);
    fog.set(Position::new(1, 0, -1), TileVisibility::SonarContact);
    fog.set(Position::new(2, 0, -1), TileVisibility::Revealed);
    fog.set(Position::new(3, 0, -1), TileVisibility::Unknown);
    fog.clear_visible();
    assert_eq!(fog.get(Position::new(0, 0, -1)), TileVisibility::Revealed);
    assert_eq!(fog.get(Position::new(1, 0, -1)), TileVisibility::Revealed);
    assert_eq!(fog.get(Position::new(2, 0, -1)), TileVisibility::Revealed);
    assert_eq!(fog.get(Position::new(3, 0, -1)), TileVisibility::Unknown);
    assert_eq!(fog.get(Position::new(4, 0, -1)), TileVisibility::Unknown);
    assert_eq!(fog.get(Position::new(0, 0, 0)), TileVisibility::Visible);
}

#[test]
fn sonar_device_phases() {
    let mut device = SonarDevice::grenade();
    assert_eq!(device, SonarDevice::new(10_000, 2_000, 30_000));
    assert_eq!(device.tick(1_999), SonarPhase::Quiet);
    assert_eq!(device.time_since_ping, 1_999);
    assert_eq!(device.tick(1), SonarPhase::Ping);
    assert_eq!(device.time_since_ping, 0);
    assert_eq!(device.lifetime, 28_000);
    assert_eq!(device.tick(27_999), SonarPhase::Ping);
    assert_eq!(device.tick(1), SonarPhase::Expired);
    assert_eq!(device.lifetime, 0);
    let mut late = SonarDevice::new(1, 10, 5);
    assert_eq!(late.tick(u32::MAX), SonarPhase::Expired);
    assert_eq!(late.time_since_ping, u32::MAX);
}

#[test]
fn contacts_are_grouped_in_order() {
    let places = vec![
        Position::new(0, 0, 0),
        Position::new(2, -2, 2),
        Position::new(3, 0, 0),
        Position::new(4, 0, 0),
        Position::new(2, 0, 0),
    ];
    let groups = group_contacts(&places);
    assert_eq!(
        groups,
        vec![
            SonarContact { position: Position::new(0, 0, 0), count: 3 },
            SonarContact { position: Position::new(3, 0, 0), count: 2 },
        ]
    );
    assert_eq!(total_contacts(&groups), 5);
    assert!(group_contacts(&Vec::new()).is_empty());
    let mut full = vec![SonarContact { position: Position::new(0, 0, 0), count: u32::MAX }];
    count_contact(&mut full, Position::new(1, 1, 1));
    assert_eq!(full[0].count, u32::MAX);
    full.push(SonarContact { position: Position::new(9, 9, 9), count: 7 });
    assert_eq!(total_contacts(&full), u32::MAX);
}

#[test]
fn alarm_levels() {
    assert_eq!(alarm_for(0), SonarAlarm::Few);
    assert_eq!(alarm_for(10), SonarAlarm::Few);
    assert_eq!(alarm_for(11), SonarAlarm::Many);
    assert_eq!(alarm_for(50), SonarAlarm::Many);
    assert_eq!(alarm_for(51), SonarAlarm::Massing);
}

#[test]
fn placed_contacts_are_near_the_real_ones() {
    let contacts: Vec<Position> = (0..200).map(|i| Position::new(i * 10, -i * 10, i % 3)).collect();
    let places = place_contacts(&contacts);
    assert_eq!(places.len(), contacts.len());
    let mut moved = false;
    for (actual, placed) in contacts.iter().zip(places.iter()) {
        assert!((placed.x - actual.x).abs() <= 2);
        assert!((placed.y - actual.y).abs() <= 2);
        assert_eq!(placed.z, actual.z);
        moved = moved || placed != actual;
    }
    // Two hundred contacts all placed without any error would not be chance.
    assert!(moved);
    assert_eq!(nudged(i32::MAX, 2), i32::MAX);
    assert_eq!(nudged(i32::MIN, -1), i32::MIN);
    assert_eq!(nudged(5, -2), 3);
}

#[test]
fn ping_marks_the_fog() {
    let mut fog = FogOfWar::new();
    let device = Position::new(0, 0, -1);
    assert!(record_ping(device, &Vec::new(), &mut fog).is_none());
    assert!(ping(device, &Vec::new(), &mut fog).is_none());
    let places = vec![Position::new(5, 5, -2), Position::new(6, 5, -2), Position::new(50, 5, -2)];
    let event = record_ping(device, &places, &mut fog).unwrap();
    assert_eq!(event.device_position, device);
    assert_eq!(event.contacts.len(), 2);
    assert_eq!(event.contacts[0], SonarContact { position: Position::new(5, 5, -2), count: 2 });
    for p in &places {
        assert_eq!(fog.get(*p), TileVisibility::SonarContact);
    }
    assert_eq!(fog.get(Position::new(7, 5, -2)), TileVisibility::Unknown);

    let mut other = FogOfWar::new();
    let contacts = vec![Position::new(100, 100, -3); 20];
    let event = ping(device, &contacts, &mut other).unwrap();
    assert_eq!(total_contacts(&event.contacts), 20);
    let mut marked = 0;
    for x in 98..=102 {
        for y in 98..=102 {
            if other.get(Position::new(x, y, -3)) == TileVisibility::SonarContact {
                marked += 1;
            }
        }
    }
    assert!(marked >= 1 && marked <= 20);
    assert_eq!(other.get(Position::new(103, 100, -3)), TileVisibility::Unknown);
}

#[test]
fn glyphs() {
    let wall = Tile::Stone { hp: 1, max_hp: 1 };
    assert_eq!(ascii_glyph(TileVisibility::Unknown, Some(&wall)), ' ');
    assert_eq!(ascii_glyph(TileVisibility::SonarContact, Some(&wall)), '?');
    assert_eq!(ascii_glyph(TileVisibility::Visible, Some(&wall)), '#');
    assert_eq!(ascii_glyph(TileVisibility::Revealed, Some(&wall)), '#');
    assert_eq!(ascii_glyph(TileVisibility::Revealed, None), '~');
    assert_eq!(ascii_glyph(TileVisibility::Unknown, None), ' ');
}

#[test]
fn layer_as_text() {
    let mut world = GameWorld::new();
    let mut fog = FogOfWar::new();
    world.set_tile(Position::new(0, 0, -1), Tile::Dirt { hp: 1, max_hp: 1 });
    world.set_tile(Position::new(1, 0, -1), Tile::Stone { hp: 1, max_hp: 1 });
    world.set_tile(Position::new(2, 1, -1), Tile::Rubble);
    fog.reveal_around(Position::new(1, 0, -1), 1);
    fog.set(Position::new(0, 1, -1), TileVisibility::SonarContact);
    let rows: Vec<String> =
        render_layer(&world, &fog, -1, 4).iter().map(|r| r.iter().collect()).collect();
    assert_eq!(rows, vec!["        ", "        ", "? . %   ", ", # .   "]);
    let row: String = ascii_row(&world, &fog, 0, 0, 3).iter().collect();
    assert_eq!(row, "~ ~ ~ ");
    assert!(ascii_row(&world, &fog, 0, 0, 0).is_empty());
    assert!(render_layer(&world, &fog, 0, -3).is_empty());
}

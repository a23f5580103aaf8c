use space_craft::blocks::{Facing, RelativePixel};
use space_craft::players::{PlayerBlueprintBundle, PlayerBlueprintComponent};
use space_craft::structures::{spawn_authoritative_initial_world, WorldObjectType};
use space_craft::worldgen::{OptimizableDiscreteShape, TerrainType, WorldGenPlugin};
use space_craft::blueprints::{GlobalGameStates, MainPlugin};
use space_craft::movement::{KeyCode, PlayerInput, PlayerMovementPlugin, PressedInputs};
use space_craft::netcode::{ClientID, IpAddress, NetcodeConfig, NetcodePlugin, SERVER_ID};
use space_craft::players::{find_player, PlayerPlugin, PlayerWeaponsPlugin, StartScreen, StructuresPlugin};
use space_craft::weapons::{BulletInfo, Direction, Reflection, Weapon, WeaponInfo};

fn pressed(forward: bool, backward: bool, left: bool, right: bool) -> PressedInputs {
    PressedInputs { forward, backward, left, right }
}

#[test]
fn intended_velocity_from_keys() {
    let v = PlayerMovementPlugin::calculate_intended_velocity(pressed(true, false, false, true));
    assert_eq!((v.forward, v.turn_right), (2, 2));
    let v = PlayerMovementPlugin::calculate_intended_velocity(pressed(false, true, true, false));
    assert_eq!((v.forward, v.turn_right), (-2, -2));
    let v = PlayerMovementPlugin::calculate_intended_velocity(pressed(true, true, true, true));
    assert_eq!((v.forward, v.turn_right, v.right, v.up, v.tilt_up, v.roll_right), (0, 0, 0, 0, 0, 0));
}

#[test]
fn key_bindings() {
    assert_eq!(
        PlayerInput::new(),
        vec![
            (KeyCode::W, PlayerInput::Forward),
            (KeyCode::S, PlayerInput::Backward),
            (KeyCode::A, PlayerInput::Left),
            (KeyCode::D, PlayerInput::Right),
        ]
    );
}

#[test]
fn player_names() {
    assert_eq!(PlayerPlugin::name_player(0), "Player 0");
    assert_eq!(PlayerPlugin::name_player(42), "Player 42");
    assert_eq!(PlayerPlugin::name_player(u64::MAX), format!("Player {}", u64::MAX));
}

#[test]
fn finding_players() {
    let players = vec![5, 9, 5];
    assert_eq!(find_player(&players, 5), Some(0));
    assert_eq!(find_player(&players, 9), Some(1));
    assert_eq!(find_player(&players, 1), None);
    assert_eq!(
        PlayerWeaponsPlugin::authoritative_spawn_bullets(&vec![9, 1, 5], &players),
        vec![Some(1), None, Some(0)]
    );
}

#[test]
fn weapons_and_reflection() {
    let info = WeaponInfo::sensible_default();
    assert_eq!(info, WeaponInfo { cooldown: 0, fire_rate: 500, bullets_info: BulletInfo { ttl: 5000 } });
    let w = Weapon::new(Direction::Left, info);
    assert_eq!(w.reflect_horizontally().facing, Direction::Right);
    assert_eq!(w.reflect_vertically().facing, Direction::Left);
    assert_eq!(Direction::Up.reflect_vertically(), Direction::Down);
    assert_eq!(Direction::Forward.reflect_horizontally(), Direction::Forward);
    assert_eq!(w.reflect_horizontally().reflect_horizontally(), w);
}

#[test]
fn structure_hydration() {
    let m = StructuresPlugin::hydrate_structure(true, false, false);
    assert!(!m.computed_visibility && m.global_transform && m.visibility);
    assert_eq!(StartScreen::spawn_initial(), vec!["Host Game", "Join Game", "Solo"]);
}

#[test]
fn netcode_decisions() {
    let server = NetcodeConfig::Server { ip: IpAddress::V4(127, 0, 0, 1), port: 5000, headless: false };
    let headless = NetcodeConfig::Server { ip: IpAddress::V4(0, 0, 0, 0), port: 5000, headless: true };
    let client = NetcodeConfig::Client { ip: IpAddress::V4(127, 0, 0, 1), port: 5000 };
    assert!(!server.get_headless() && server.not_headless());
    assert!(headless.get_headless());
    assert!(!client.get_headless());
    assert_eq!(ClientID::client_id(None, &server), Some(SERVER_ID));
    assert_eq!(ClientID::client_id(Some(77), &client), Some(77));
    assert_eq!(ClientID::client_id(None, &headless), None);
    assert_eq!(ClientID::assert_client_id(Some(3), &client), 3);
}

#[test]
fn replicon_tick_follows_game_clock() {
    let (mut frame, mut tick) = (10u32, 4u32);
    NetcodePlugin::frame_inc_and_replicon_tick_sync(&mut frame, &mut tick);
    assert_eq!((frame, tick), (11, 11));
    let (mut frame, mut tick) = (10u32, 40u32);
    NetcodePlugin::frame_inc_and_replicon_tick_sync(&mut frame, &mut tick);
    assert_eq!((frame, tick), (11, 40));
}

#[test]
fn initial_game_state() {
    assert_eq!(MainPlugin::initial_state(1), GlobalGameStates::StartMenu);
    assert_eq!(MainPlugin::initial_state(3), GlobalGameStates::InGame);
    assert_eq!(GlobalGameStates::default(), GlobalGameStates::StartMenu);
}

#[test]
fn starting_ship() {
    let b = PlayerBlueprintBundle::new(12);
    assert_eq!(b.network_id, 12);
    assert_eq!(b.blueprint.structure_children.len(), 2);
    assert_eq!(b.blueprint.structure_children[1].location, RelativePixel::new(0, 0, -1));
    assert_eq!(b.blueprint.thruster_children[0].facing, Facing::Left);
    assert_eq!(b.blueprint.thruster_children[1].location, RelativePixel::new(1, 0, 0));
    assert_eq!(b.blueprint.primary_camera.location, RelativePixel::new(0, 1, 0));
    let ids = b.blueprint.derive_thruster_ids();
    assert_eq!(ids, vec![b.blueprint.thruster_children[0].id, b.blueprint.thruster_children[1].id]);
    let other = PlayerBlueprintComponent::new();
    assert_eq!(other.primary_camera.facing, Facing::Forwards);
}

#[test]
fn primary_camera_follows_local_player_only() {
    assert!(PlayerPlugin::manage_primary_camera(Some(4), Some(4)));
    assert!(!PlayerPlugin::manage_primary_camera(Some(4), Some(5)));
    assert!(!PlayerPlugin::manage_primary_camera(None, Some(4)));
    assert!(!PlayerPlugin::manage_primary_camera(Some(4), None));
}

#[test]
fn random_worlds() {
    let objects = spawn_authoritative_initial_world();
    assert_eq!(objects.len(), 25);
    for o in &objects {
        let WorldObjectType::Asteroid { approx_radius } = o.obj_type;
        assert!((1..=4).contains(&approx_radius));
    }
    let terrain = WorldGenPlugin::creation_spawn_random_world();
    assert_eq!(terrain.len(), 10);
    for t in &terrain {
        assert_eq!(t.terrain_type, TerrainType::SilicateRock);
        match t.shape {
            OptimizableDiscreteShape::Sphere(s) => assert!((1..=4).contains(&s.radius)),
            OptimizableDiscreteShape::Dot => panic!("terrain is made of spheres"),
        }
    }
}

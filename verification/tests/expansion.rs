use space_craft::blocks::{BlockId, Facing, OptimizableMaterial, RelativePixel, StructureBlockBlueprint};
use space_craft::colour::Colour;
use space_craft::blueprints::BlueprintNeedsUpdating;
use space_craft::cameras::{BlockEntity, CameraEntity, CamerasConfig, ChangeCameraConfig};
use space_craft::manifest::{get_bin_name, get_current_version, get_osx_app_name, set_current_version};
use space_craft::movement::PlayerMovementPlugin;
use space_craft::netcode::{
    IpAddress, NetcodeConfig, NetcodePlugin, NetcodeSetup, NetcodeTeardown, ServerEvent, MAX_CLIENTS, SERVER_ID,
};
use space_craft::players::{PlayerBlueprintBundle, PlayerChildBlueprint, PlayerPlugin};
use space_craft::spawn_points::{AvailableSpawnPoints, SpawnPoint};
use space_craft::structures::{hydrate_spawn_world_object, SpawnWorldObject, StructurePart, WorldObjectType};
use space_craft::ui::{ButtonPointerResponse, GameButtonBundle, UiCameras};
use space_craft::world_creation::{CreateWorldEvent, ScheduleRun, WorldCreationPlugin};

const MANIFEST: &str = "[package]\nname = \"space_craft\"\nversion = \"0.1.2-dev.3\"\nedition = \"2021\"\n\n[dependencies]\nrand = \"0.8\"\n";

#[test]
fn hydrating_an_asteroid_builds_its_ball() {
    let obj = SpawnWorldObject::new(WorldObjectType::Asteroid { approx_radius: 1 });
    let child = hydrate_spawn_world_object(&obj);
    assert_eq!(child.structure.parts.len(), 7);
    let StructurePart::Pixel { relative_location, .. } = &child.structure.parts[0];
    assert_eq!((relative_location.x, relative_location.y, relative_location.z), (-1, 0, 0));
}

#[test]
fn world_creation_runs_then_expands() {
    assert_eq!(WorldCreationPlugin::handle_world_creation_events(&vec![]), vec![]);
    assert_eq!(
        WorldCreationPlugin::handle_world_creation_events(&vec![CreateWorldEvent, CreateWorldEvent]),
        vec![ScheduleRun::WorldCreation, ScheduleRun::Blueprints, ScheduleRun::WorldCreation, ScheduleRun::Blueprints]
    );
}

#[test]
fn blueprint_marker_default() {
    assert_eq!(BlueprintNeedsUpdating::default(), BlueprintNeedsUpdating);
}

#[test]
fn manifest_package_entries() {
    assert_eq!(get_bin_name(MANIFEST), Some("space_craft".to_owned()));
    assert_eq!(get_current_version(MANIFEST), Some("0.1.2-dev.3".to_owned()));
    assert_eq!(get_current_version("[package]\nname = \"x\"\n"), None);
    assert_eq!(get_current_version("[package]\nversion = 3\n"), None);
    assert_eq!(get_bin_name("this is = = not toml"), None);
}

#[test]
fn osx_app_name_is_title_case() {
    assert_eq!(get_osx_app_name(MANIFEST), Some("Space Craft".to_owned()));
    assert_eq!(get_osx_app_name("[package]\nversion = \"1.0.0\"\n"), None);
}

#[test]
fn setting_the_version_keeps_the_rest() {
    let updated = set_current_version(MANIFEST, "0.1.2-dev.4").unwrap();
    assert_eq!(get_current_version(&updated), Some("0.1.2-dev.4".to_owned()));
    assert_eq!(get_bin_name(&updated), Some("space_craft".to_owned()));
    assert!(updated.contains("rand = \"0.8\""));
    assert_eq!(set_current_version("package = 5\n", "1.0.0"), None);
    assert_eq!(set_current_version("not [ toml", "1.0.0"), None);
}

#[test]
fn netcode_setup_per_side() {
    let server = NetcodeConfig::Server { ip: IpAddress::V4(127, 0, 0, 1), port: 5000, headless: false };
    assert_eq!(
        NetcodePlugin::add_netcode(&server, 1234),
        NetcodeSetup::Host { ip: IpAddress::V4(127, 0, 0, 1), port: 5000, max_clients: MAX_CLIENTS, local_player: Some(SERVER_ID) }
    );
    let headless = NetcodeConfig::Server { ip: IpAddress::V4(0, 0, 0, 0), port: 7, headless: true };
    assert_eq!(
        NetcodePlugin::add_netcode(&headless, 1234),
        NetcodeSetup::Host { ip: IpAddress::V4(0, 0, 0, 0), port: 7, max_clients: 10, local_player: None }
    );
    let client = NetcodeConfig::Client { ip: IpAddress::V4(10, 0, 0, 2), port: 9 };
    assert_eq!(
        NetcodePlugin::add_netcode(&client, (1u128 << 64) + 42),
        NetcodeSetup::Join { client_id: 42, ip: IpAddress::V4(10, 0, 0, 2), port: 9 }
    );
    assert_eq!(NetcodePlugin::disconnect_netcode(&server), NetcodeTeardown::Server);
    assert_eq!(NetcodePlugin::disconnect_netcode(&client), NetcodeTeardown::Client);
}

#[test]
fn connected_clients_get_players() {
    let events = vec![
        ServerEvent::ClientConnected { client_id: 5 },
        ServerEvent::ClientDisconnected { client_id: 5 },
        ServerEvent::ClientConnected { client_id: 9 },
        ServerEvent::ClientConnected { client_id: 5 },
    ];
    assert_eq!(NetcodePlugin::server_event_system(&events), vec![5, 9, 5]);
    assert_eq!(NetcodePlugin::server_event_system(&vec![]), Vec::<u64>::new());
}

#[test]
fn player_blueprint_expands_in_order() {
    let bundle = PlayerBlueprintBundle::new(3);
    let children = PlayerPlugin::handle_spawn_player_blueprints(&bundle.blueprint);
    assert_eq!(children.len(), 5);
    match children[0] {
        PlayerChildBlueprint::Structure(s) => {
            assert_eq!(s.block, StructureBlockBlueprint::Aluminum);
            assert_eq!(s.location, RelativePixel::new(0, 0, 0));
        },
        _ => panic!("the first child is a structure block"),
    }
    match children[3] {
        PlayerChildBlueprint::Thruster(t) => assert_eq!(t.facing, Facing::Right),
        _ => panic!("the fourth child is a thruster"),
    }
    match children[4] {
        PlayerChildBlueprint::Camera(c) => assert_eq!(c.facing, Facing::Forwards),
        _ => panic!("the last child is the camera"),
    }
}

#[test]
fn server_player_takes_first_free_spawn_point() {
    let mut points = AvailableSpawnPoints {
        spawn_points: vec![(SpawnPoint::new(Some(4)), 'a'), (SpawnPoint::new(None), 'b'), (SpawnPoint::new(None), 'c')],
    };
    let (bundle, at) = PlayerPlugin::creation_spawn_initial(&mut points);
    assert_eq!(bundle.network_id, SERVER_ID);
    assert_eq!(at, 'b');
    assert_eq!(points.spawn_points[1].0.player_occupation, Some(SERVER_ID));
    assert_eq!(points.spawn_points[2].0.player_occupation, None);
}

#[test]
fn thruster_selection_keeps_last_of_each_thruster() {
    let ids = vec![BlockId(1), BlockId(2)];
    let children = vec![(BlockId(7), 'x'), (BlockId(2), 'a'), (BlockId(1), 'b'), (BlockId(2), 'c')];
    let mut selected = PlayerMovementPlugin::thrusters_for_axis(&ids, &children);
    selected.sort_by_key(|(id, _)| id.0);
    assert_eq!(selected, vec![(BlockId(1), 'b'), (BlockId(2), 'c')]);
    assert_eq!(PlayerMovementPlugin::thrusters_for_axis(&ids, &vec![(BlockId(3), 'z')]), vec![]);
}

#[test]
fn button_pointer_responses() {
    let children = vec![false, true, true];
    assert_eq!(
        GameButtonBundle::pointer_response(Some(UiCameras::TopLeft), Some(&children), true),
        ButtonPointerResponse::SetParticles { child: 1, active: true }
    );
    assert_eq!(
        GameButtonBundle::pointer_response(Some(UiCameras::TopLeft), Some(&children), false),
        ButtonPointerResponse::SetParticles { child: 1, active: false }
    );
    assert_eq!(
        GameButtonBundle::pointer_response(Some(UiCameras::Center), Some(&children), true),
        ButtonPointerResponse::OtherCamera
    );
    assert_eq!(GameButtonBundle::pointer_response(None, Some(&children), true), ButtonPointerResponse::OtherCamera);
    assert_eq!(
        GameButtonBundle::pointer_response(Some(UiCameras::TopLeft), None, true),
        ButtonPointerResponse::MissingTarget
    );
    assert_eq!(
        GameButtonBundle::pointer_response(Some(UiCameras::TopLeft), Some(&vec![false]), true),
        ButtonPointerResponse::MissingParticleSpawner
    );
}

#[test]
fn change_camera_event_replaces_fallback() {
    let mut config = CamerasConfig::Fallback { cam: CameraEntity(1) };
    let despawn = config.handle_change_camera_event(
        ChangeCameraConfig::SetPrimaryCamera { follow_camera_block: BlockEntity(8) },
        CameraEntity(2),
    );
    assert_eq!(despawn, Some(CameraEntity(1)));
    assert_eq!(config.camera_to_update(), Some((CameraEntity(2), BlockEntity(8), true)));
}

#[test]
fn spawn_point_bundle_keeps_its_place() {
    let b = space_craft::spawn_points::SpawnPointBlueprintBundle::new((1, 2, 3), Some(7));
    assert_eq!(b.transform, (1, 2, 3));
    assert_eq!(b.blueprint.initial_occupation, Some(7));
    let free = space_craft::spawn_points::SpawnPointBlueprintBundle::new((), None);
    assert_eq!(free.blueprint.initial_occupation, None);
}

#[test]
fn scene_helper_defaults() {
    assert_eq!(space_craft::scenes::HelperSceneRes::default().path, "cool.scene.ron");
    assert!(!space_craft::scenes::HelperSceneMarker::default().save_recursive);
}

#[test]
fn block_materials_and_names() {
    let ship = PlayerBlueprintBundle::new(1).blueprint;
    assert_eq!(ship.structure_children[0].material(), OptimizableMaterial::OpaqueColour(Colour::Permille(750, 750, 750)));
    assert_eq!(ship.structure_children[0].entity_name(), "StructureBlock Aluminum");
    assert_eq!(ship.thruster_children[0].material(), OptimizableMaterial::OpaqueColour(Colour::Permille(1000, 0, 0)));
    assert_eq!(ship.primary_camera.material(), OptimizableMaterial::OpaqueColour(Colour::Permille(0, 0, 0)));
}

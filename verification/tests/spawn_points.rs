use space_craft::spawn_points::{
    AvailableSpawnPoints, CollisionEntity, SpawnPoint, SpawnPointBlueprintComponent, SpawnPointMaterial,
    SpawnPointsPlugin,
};

fn points(occupations: &[Option<u64>]) -> AvailableSpawnPoints<u32> {
    AvailableSpawnPoints {
        spawn_points: occupations.iter().enumerate().map(|(i, o)| (SpawnPoint::new(*o), i as u32 * 10)).collect(),
    }
}

#[test]
fn spawn_locations_are_handed_out_in_order() {
    let mut sp = points(&[None, Some(7), None]);
    assert_eq!(sp.try_get_spawn_location(1), Some(0));
    assert_eq!(sp.spawn_points[0].0.get_network_id(), Some(1));
    assert_eq!(sp.try_get_spawn_location(2), Some(20));
    assert_eq!(sp.spawn_points[2].0.get_network_id(), Some(2));
    assert_eq!(sp.spawn_points[1].0.get_network_id(), Some(7));
    // no more spawn points left
    assert_eq!(sp.try_get_spawn_location(3), None);
    assert_eq!(sp.spawn_points.iter().map(|(p, _)| p.player_occupation).collect::<Vec<_>>(), vec![Some(1), Some(7), Some(2)]);
}

#[test]
fn no_spawn_points() {
    let mut sp = points(&[]);
    assert_eq!(sp.try_get_spawn_location(0), None);
}

#[test]
fn spawn_point_occupation() {
    let mut p = SpawnPoint::new(None);
    assert_eq!(p.get_network_id(), None);
    p.set_network_id(42);
    assert_eq!(p.get_network_id(), Some(42));
    let blueprint = SpawnPointBlueprintComponent::new(Some(9));
    assert_eq!(blueprint.spawn_point().get_network_id(), Some(9));
}

fn spawn_point(occupation: Option<u64>) -> CollisionEntity {
    CollisionEntity { spawn_point: Some(SpawnPoint::new(occupation)), player: None, parent_player: None }
}

fn player(id: u64) -> CollisionEntity {
    CollisionEntity { spawn_point: None, player: Some(id), parent_player: None }
}

fn block_of(parent: Option<u64>) -> CollisionEntity {
    CollisionEntity { spawn_point: None, player: None, parent_player: Some(parent) }
}

#[test]
fn collisions_with_own_spawn_point_are_ignored() {
    let keep = SpawnPointsPlugin::filter_non_occupied_collisions;
    // the occupying player and its blocks pass through, either way round
    assert!(!keep(&player(3), &spawn_point(Some(3))));
    assert!(!keep(&spawn_point(Some(3)), &player(3)));
    assert!(!keep(&block_of(Some(3)), &spawn_point(Some(3))));
    // other players, their blocks and loose blocks collide
    assert!(keep(&player(4), &spawn_point(Some(3))));
    assert!(keep(&block_of(Some(4)), &spawn_point(Some(3))));
    assert!(keep(&block_of(None), &spawn_point(Some(3))));
    // unoccupied spawn points collide with everyone
    assert!(keep(&player(3), &spawn_point(None)));
    // contacts without spawn points are kept
    assert!(keep(&player(3), &player(3)));
}

#[test]
fn spawn_point_layout() {
    let spawned = SpawnPointsPlugin::creation_spawn_points();
    assert_eq!(spawned.len(), 18);
    assert!(spawned.iter().all(|b| b.blueprint.initial_occupation.is_none()));
    let layout: Vec<_> = spawned.iter().map(|b| b.transform).collect();
    assert_eq!(layout, SpawnPointsPlugin::spawn_point_placements());
    let strips: Vec<i8> = layout.iter().map(|p| p.altitude_eighths).collect();
    assert_eq!(strips, vec![-2, -1, -1, -1, -1, 0, 0, 0, 0, 0, 0, 0, 0, 1, 1, 1, 1, 2]);
    assert_eq!(layout[0].theta_count, 1);
    assert_eq!((layout[7].theta_index, layout[7].theta_count), (2, 8));
    assert_eq!((layout[16].theta_index, layout[16].theta_count), (3, 4));
    assert_eq!(SpawnPointsPlugin::num_thetas_per_strip_n(0), 8);
}

#[test]
fn local_spawn_points_are_highlighted() {
    let sps = vec![SpawnPoint::new(Some(1)), SpawnPoint::new(None), SpawnPoint::new(Some(2))];
    assert_eq!(SpawnPointsPlugin::activate_local_spawn_points(None, &sps), None);
    assert_eq!(
        SpawnPointsPlugin::activate_local_spawn_points(Some(2), &sps),
        Some(vec![SpawnPointMaterial::Default, SpawnPointMaterial::Default, SpawnPointMaterial::Active])
    );
}

#[test]
fn spawn_point_materials() {
    let default = SpawnPointBlueprintComponent::get_default_material();
    let active = SpawnPointBlueprintComponent::get_active_material();
    assert_eq!(default.base_colour.alpha_permille, 500);
    assert_eq!(active.base_colour.alpha_permille, 200);
    assert_eq!(default.ior_permille, 1330);
    assert_ne!(default.base_colour.colour, active.base_colour.colour);
}

use std::f32::consts::TAU;

use space_craft::blocks::{BlockId, Facing, MaterialColour, OptimizableMaterial, RelativePixel, StructureBlockBlueprint};
use space_craft::blueprints::{BlueprintExpansion, BlueprintsExpansionPlugin, BlueprintsPlugin, BlueprintsSet};
use space_craft::colour::Colour;
use space_craft::grid::{IVec3, Rotation, TurnAngle};
use space_craft::movement::{thruster_push, ExternalForce};

fn radians(a: TurnAngle) -> f32 {
    match a {
        TurnAngle::Zero => 0.0,
        TurnAngle::QuarterTurn => TAU / 4.,
        TurnAngle::ThirdTurn => TAU / 3.,
        TurnAngle::HalfTurn => TAU / 2.,
    }
}

fn assert_near(a: f32, b: f32) {
    assert!((a - b).abs() < 0.001, "{} is not near {}", a, b);
}

#[test]
fn facing_forwards() {
    let quat = Facing::Forwards.into_quat();
    let forwards = quat.forward();
    assert_eq!(forwards, IVec3::new(0, 0, -1));
}

#[test]
fn facing_right() {
    let quat = Facing::Right.into_quat();
    let forwards = quat.forward();
    assert_eq!(forwards, IVec3::new(1, 0, 0));
}

#[test]
fn facing_up() {
    let quat = Facing::Up.into_quat();
    let forwards = quat.forward();
    assert_eq!(forwards, IVec3::new(0, 1, 0));
}

#[test]
fn basic_rotations() {
    assert_near(radians(Facing::Right.into_quat().angle_between(&Facing::Right.into_quat())), 0.0);
    assert_near(radians(Facing::Right.into_quat().angle_between(&Facing::Forwards.into_quat())), TAU / 4.);
}

#[test]
fn apply_force_at_point() {
    // force rightwards at back of ship
    let ef = ExternalForce::new(IVec3::zero()).apply_force_at_point(IVec3::new(-1, 0, 0), IVec3::new(0, 0, 1), IVec3::zero());
    assert_eq!(ef.torque(), IVec3::new(0, -1, 0));

    // force downward at back of ship
    let ef = ExternalForce::new(IVec3::zero()).apply_force_at_point(IVec3::new(0, -1, 0), IVec3::new(0, 0, 1), IVec3::zero());
    assert_eq!(ef.torque(), IVec3::new(1, 0, 0));

    // force upwards at right of ship
    let ef = ExternalForce::new(IVec3::zero()).apply_force_at_point(IVec3::new(0, 1, 0), IVec3::new(1, 0, 0), IVec3::zero());
    assert_eq!(ef.torque(), IVec3::new(0, 0, 1));
}

#[test]
fn applied_forces_accumulate() {
    let ef = ExternalForce::new(IVec3::new(1, 2, 3))
        .apply_force_at_point(IVec3::new(0, 1, 0), IVec3::new(2, 0, 0), IVec3::new(1, 0, 0))
        .apply_force_at_point(IVec3::new(0, 0, 1), IVec3::new(0, 3, 0), IVec3::zero());
    assert_eq!(ef.force(), IVec3::new(1, 3, 4));
    // (1,0,0) x (0,1,0) = (0,0,1); (0,3,0) x (0,0,1) = (3,0,0)
    assert_eq!(ef.torque(), IVec3::new(3, 0, 1));
}

#[test]
fn force_axis() {
    assert_eq!(Facing::Forwards.into_quat().mul_vec3(IVec3::new(0, 0, 1)), IVec3::new(0, 0, 1));
    assert_eq!(Facing::Right.into_quat().mul_vec3(IVec3::new(0, 0, 1)), IVec3::new(-1, 0, 0));

    // thruster in back facing right, turning ship rightwards
    let ef = thruster_push(RelativePixel::new(0, 0, 1), Facing::Right, RelativePixel::new(0, 0, 0));
    let turn_right = -ef.torque.y;
    let pitch_up = ef.torque.x;
    let roll_right = ef.torque.z;
    let forward = -ef.force.z;
    let right = ef.force.x;
    let upwards = ef.force.y;
    assert!(turn_right == 1);
    assert!(pitch_up == 0);
    assert!(roll_right == 0);
    assert!(right < 0);
    assert!(upwards == 0);
    assert!(forward == 0);
}

#[test]
fn thruster_at_centre_only_pushes() {
    let ef = thruster_push(RelativePixel::new(2, -1, 3), Facing::Up, RelativePixel::new(2, -1, 3));
    assert_eq!(ef.torque, IVec3::zero());
    assert_eq!(ef.force, IVec3::new(0, -1, 0));
}

#[test]
fn every_facing_looks_its_own_way() {
    assert_eq!(Facing::Backwards.into_quat().forward(), IVec3::new(0, 0, 1));
    assert_eq!(Facing::Left.into_quat().forward(), IVec3::new(-1, 0, 0));
    assert_eq!(Facing::Down.into_quat().forward(), IVec3::new(0, -1, 0));
    assert_eq!(Facing::Forwards.into_quat(), Rotation::identity());
}

#[test]
fn angles_between_facings() {
    assert_eq!(Facing::Backwards.into_quat().angle_between(&Facing::Forwards.into_quat()), TurnAngle::HalfTurn);
    assert_eq!(Facing::Up.into_quat().angle_between(&Facing::Down.into_quat()), TurnAngle::HalfTurn);
    assert_eq!(Facing::Up.into_quat().angle_between(&Facing::Right.into_quat()), TurnAngle::ThirdTurn);
    assert_eq!(Facing::Left.into_quat().angle_between(&Facing::Forwards.into_quat()), TurnAngle::QuarterTurn);
}

#[test]
fn relative_pixels() {
    assert_eq!(RelativePixel::new(1, -2, 3), RelativePixel(IVec3 { x: 1, y: -2, z: 3 }));
    assert_eq!(RelativePixel::default(), RelativePixel(IVec3::zero()));
    assert_eq!(RelativePixel::from(IVec3::new(4, 5, 6)), RelativePixel::new(4, 5, 6));
}

#[test]
fn block_names_and_materials() {
    assert_eq!(StructureBlockBlueprint::Aluminum.name(), "Aluminum");
    assert_eq!(
        OptimizableMaterial::OpaqueColour(Colour::red()).into_material(),
        MaterialColour { colour: Colour::Permille(1000, 0, 0), alpha_permille: 1000 }
    );
    assert_eq!(
        OptimizableMaterial::Transparent.get_material(),
        MaterialColour { colour: Colour::Permille(1000, 1000, 1000), alpha_permille: 0 }
    );
    assert_eq!(Colour::silver(), Colour::Permille(750, 750, 750));
    assert_eq!(Colour::black(), Colour::Permille(0, 0, 0));
}

#[test]
fn block_ids() {
    assert_eq!(BlockId::default_id(), BlockId(0));
    // random ids are drawn from all of u64; two draws are almost never equal
    let ids: Vec<BlockId> = (0..8).map(|_| BlockId::random()).collect();
    assert!(ids.iter().any(|id| *id != ids[0]));
}

#[derive(Clone, Copy, PartialEq, Eq, Debug)]
struct BlueprintSchedule;

#[test]
fn plugin_initializes() {
    let plugin = BlueprintsPlugin::new(BlueprintSchedule);
    assert_eq!(plugin.schedule(), BlueprintSchedule);
    assert_eq!(
        plugin.sets(),
        vec![
            BlueprintsSet::ApplyDeferred1,
            BlueprintsSet::MarkChanged,
            BlueprintsSet::ApplyDeferred2,
            BlueprintsSet::ExpandBlueprints,
            BlueprintsSet::ApplyDeferred3,
        ]
    );
}

#[test]
fn player_blueprints_expand_before_thrusters() {
    let stages = BlueprintsExpansionPlugin::stages();
    assert_eq!(stages.len(), 5);
    let stage = |e: BlueprintExpansion| stages.iter().position(|s| s.contains(&e)).unwrap();
    assert!(stage(BlueprintExpansion::Player) < stage(BlueprintExpansion::ThrusterBlocks));
    assert_eq!(stage(BlueprintExpansion::Player), stage(BlueprintExpansion::Terrain));
    assert_eq!(stage(BlueprintExpansion::ClearJustExpandedMarker), 0);
}

#[test]
fn large_lever_arms() {
    // A lever arm far beyond a ship's size: the moment is still exact.
    let ef = ExternalForce::new(IVec3::zero()).apply_force_at_point(
        IVec3::new(0, 3, 0),
        IVec3::new(200_000, 0, 0),
        IVec3::new(-100_000, 0, 0),
    );
    assert_eq!(ef.torque(), IVec3::new(0, 0, 900_000));
    let ef = thruster_push(RelativePixel::new(0, 0, 1_000_000), Facing::Right, RelativePixel::new(0, 0, -1_000_000));
    assert_eq!(ef.torque, IVec3::new(0, -2_000_000, 0));
}

#[test]
fn fixed_update_set_order() {
    assert_eq!(
        space_craft::blueprints::MainPlugin::fixed_update_sets(),
        vec![
            space_craft::blueprints::GlobalSystemSet::PlayerMovement,
            space_craft::blueprints::GlobalSystemSet::RawPhysics,
            space_craft::blueprints::GlobalSystemSet::GameLogic,
            space_craft::blueprints::GlobalSystemSet::BlueprintExpansion,
            space_craft::blueprints::GlobalSystemSet::WorldCreation,
        ]
    );
}

use space_craft::blocks::{OptimizableMaterial, RelativePixel};
use space_craft::colour::Colour;
use space_craft::grid::{lattice_ball, IVec3};
use space_craft::pixels::PixelVariant;
use space_craft::structures::{points_in_circle, RelativePixelPoint, StructurePart, WorldObjectType, SpawnWorldObject};
use space_craft::worldgen::{
    DiscreteLocations, DiscreteSphere, OptimizableDiscreteShape, TerrainStructureBlueprint, TerrainType,
};

#[test]
fn test_world_gen_expands() {
    // a default terrain structure (a dot) expands into exactly one terrain item
    let blueprint = TerrainStructureBlueprint {
        shape: OptimizableDiscreteShape::default(),
        terrain_type: TerrainType::default(),
    };
    let children = blueprint.into_children();
    assert_eq!(children.len(), 1);
    assert_eq!(children[0].location, RelativePixel::default());
    assert_eq!(children[0].terrain_type, TerrainType::SilicateRock);
}

#[test]
fn sphere_sizes() {
    assert_eq!(DiscreteSphere { radius: 1 }.get_locations().len(), 7);
    assert_eq!(DiscreteSphere { radius: 2 }.get_locations().len(), 33);
    assert_eq!(DiscreteSphere { radius: 3 }.get_locations().len(), 123);
    assert_eq!(DiscreteSphere { radius: 0 }.get_locations(), vec![RelativePixel::default()]);
}

#[test]
fn sphere_radius_one_in_order() {
    let locations = DiscreteSphere { radius: 1 }.get_locations();
    assert_eq!(
        locations,
        vec![
            RelativePixel::new(-1, 0, 0),
            RelativePixel::new(0, -1, 0),
            RelativePixel::new(0, 0, -1),
            RelativePixel::new(0, 0, 0),
            RelativePixel::new(0, 0, 1),
            RelativePixel::new(0, 1, 0),
            RelativePixel::new(1, 0, 0),
        ]
    );
}

#[test]
fn sphere_points_are_inside_and_distinct() {
    let r = 4i32;
    let locations = DiscreteSphere { radius: r as u8 }.get_locations();
    for p in &locations {
        assert!(p.0.x * p.0.x + p.0.y * p.0.y + p.0.z * p.0.z <= r * r);
    }
    let mut sorted = locations.clone();
    sorted.dedup();
    assert_eq!(sorted.len(), locations.len());
    let mut count = 0;
    for x in -r..=r {
        for y in -r..=r {
            for z in -r..=r {
                if x * x + y * y + z * z <= r * r {
                    count += 1;
                    assert!(locations.contains(&RelativePixel::new(x, y, z)));
                }
            }
        }
    }
    assert_eq!(count, locations.len());
}

#[test]
fn sphere_shape_expands_into_items() {
    let blueprint = TerrainStructureBlueprint {
        shape: OptimizableDiscreteShape::Sphere(DiscreteSphere { radius: 2 }),
        terrain_type: TerrainType::SilicateRock,
    };
    let children = blueprint.into_children();
    assert_eq!(children.len(), 33);
    assert!(children.iter().all(|c| c.terrain_type == TerrainType::SilicateRock));
    assert_eq!(children[0].location, RelativePixel::new(-2, 0, 0));
}

#[test]
fn terrain_type_names_and_material() {
    assert_eq!(TerrainType::SilicateRock.name(), "SilicateRock");
    assert_eq!(TerrainType::SilicateRock.material(), OptimizableMaterial::OpaqueColour(Colour::Bytes(84, 84, 84)));
}

#[test]
fn in_circle() {
    assert!(RelativePixelPoint::new(0, 0, 0).in_circle(1));
    assert!(RelativePixelPoint::new(1, 0, 0).in_circle(1));
    assert!(!RelativePixelPoint::new(1, 1, 0).in_circle(1));
    assert!(RelativePixelPoint::new(2, 2, 1).in_circle(3));
    assert!(!RelativePixelPoint::new(2, 2, 2).in_circle(3));
    assert!(!RelativePixelPoint::new(30000, 0, 0).in_circle(255));
}

#[test]
fn points_in_circle_match_the_sphere() {
    for radius in 1u8..=4 {
        let points = points_in_circle(radius);
        let locations = DiscreteSphere { radius }.get_locations();
        assert_eq!(points.len(), locations.len());
        for (p, l) in points.iter().zip(locations.iter()) {
            assert_eq!(IVec3::new(p.x, p.y, p.z), l.0);
            assert!(p.in_circle(radius));
        }
        assert_eq!(lattice_ball(radius).len(), points.len());
    }
}

#[test]
fn asteroids_are_copper_balls() {
    let obj = SpawnWorldObject::new(WorldObjectType::Asteroid { approx_radius: 2 });
    let structure = obj.obj_type.generate_structure();
    assert_eq!(structure.parts.len(), 33);
    for part in &structure.parts {
        match part {
            StructurePart::Pixel { px, relative_location } => {
                assert_eq!(px.get_variant(), PixelVariant::Copper);
                assert!(relative_location.in_circle(2));
            },
        }
    }
}

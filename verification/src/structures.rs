//! Structures made of pixels, the world objects generated from them, and the
//! weapons mounted on them.

use vstd::prelude::*;

use crate::grid::{in_ball, lattice_ball, lemma_ball_enumeration_unique, is_ball_enumeration, norm2, IVec3};
use crate::worldgen::{offsets, DiscreteLocations, DiscreteSphere};
use crate::chance::gen_range_u8;
use crate::pixels::{Pixel, PixelVariant, PixelView};

verus! {

/// A location inside a structure, relative to the structure's origin.
#[derive(Debug, Clone, Copy, PartialEq, Eq, Hash, Structural)]
pub struct RelativePixelPoint {
    pub x: i32,
    pub y: i32,
    pub z: i32,
}

/// The grid vector of a point.
pub open spec fn point_vec(p: RelativePixelPoint) -> IVec3 {
    IVec3 { x: p.x, y: p.y, z: p.z }
}

/// Whether the point lies within `radius` of the origin.
pub open spec fn within(p: RelativePixelPoint, radius: int) -> bool {
    norm2(p.x as int, p.y as int, p.z as int) <= radius * radius
}

impl RelativePixelPoint {
    pub fn new(x: i32, y: i32, z: i32) -> (p: RelativePixelPoint)
        ensures
            p == (RelativePixelPoint { x, y, z }),
    {
        RelativePixelPoint { x, y, z }
    }

    /// Whether this point lies within `radius` of the origin.
    ///
    /// The squared distance is compared with the squared radius, which decides
    /// the same as comparing the distance with the radius. The squared
    /// distance must fit in an `i32`.
    pub fn in_circle(&self, radius: u8) -> (res: bool)
        requires
            norm2(self.x as int, self.y as int, self.z as int) <= i32::MAX,
        ensures
            res == within(*self, radius as int),
    {
        let (x, y, z) = (self.x as i64, self.y as i64, self.z as i64);
        proof {
            assert(x * x >= 0 && y * y >= 0 && z * z >= 0) by (nonlinear_arith);
            assert(x * x <= i32::MAX && y * y <= i32::MAX && z * z <= i32::MAX);
        }
        let r = radius as i64;
        proof {
            assert(r * r <= 65025) by (nonlinear_arith)
                requires
                    0 <= r <= 255,
            ;
        }
        x * x + y * y + z * z <= r * r
    }
}

/// The points within `radius` of the origin, in increasing order of `x`, then
/// `y`, then `z`.
pub fn points_in_circle(radius: u8) -> (res: Vec<RelativePixelPoint>)
    ensures
        is_ball_enumeration(res@.map_values(|p: RelativePixelPoint| point_vec(p)), radius as int),
{
    let ball = lattice_ball(radius);
    let mut points: Vec<RelativePixelPoint> = Vec::new();
    let mut i: usize = 0;
    while i < ball.len()
        invariant
            i <= ball.len(),
            points.len() == i,
            forall|k: int| 0 <= k < i ==> point_vec(#[trigger] points@[k]) == ball@[k],
        decreases ball.len() - i,
    {
        let v = ball[i];
        points.push(RelativePixelPoint::new(v.x, v.y, v.z));
        i = i + 1;
    }
    proof {
        assert(points@.map_values(|p: RelativePixelPoint| point_vec(p)) =~= ball@);
    }
    points
}

/// One part of a structure.
#[derive(Debug)]
pub enum StructurePart {
    Pixel { px: Pixel, relative_location: RelativePixelPoint },
}

/// What a part holds: its pixel and its location.
pub open spec fn part_view(part: StructurePart) -> (PixelView, RelativePixelPoint) {
    match part {
        StructurePart::Pixel { px, relative_location } => (px@, relative_location),
    }
}

/// A structure: the parts it is built of.
#[derive(Debug)]
pub struct Structure {
    pub parts: Vec<StructurePart>,
}

impl Structure {
    pub fn new(parts: Vec<StructurePart>) -> (s: Structure)
        ensures
            s.parts@ == parts@,
    {
        Structure { parts }
    }
}

/// Kinds of objects generated in the world.
#[derive(Debug, Clone, Copy, PartialEq, Eq, Structural)]
pub enum WorldObjectType {
    /// An asteroid; its radius is not zero.
    Asteroid { approx_radius: u8 },
}

/// Whether `parts` is the structure generated for `obj`: for an asteroid, a
/// ball of default copper pixels, one at each lattice point within its
/// radius, in increasing order of `x`, then `y`, then `z`.
pub open spec fn generated_parts(obj: WorldObjectType, parts: Seq<StructurePart>) -> bool {
    match obj {
        WorldObjectType::Asteroid { approx_radius } => {
            &&& is_ball_enumeration(
                parts.map_values(|part: StructurePart| point_vec(part_view(part).1)),
                approx_radius as int,
            )
            &&& forall|i: int|
                0 <= i < parts.len() ==> part_view(#[trigger] parts[i]).0 == (PixelView::Default {
                    variant: PixelVariant::Copper,
                })
        },
    }
}

impl WorldObjectType {
    /// An asteroid is a ball of default copper pixels, one at each point within
    /// its radius, in increasing order of `x`, then `y`, then `z`.
    pub fn generate_structure(&self) -> (s: Structure)
        ensures
            generated_parts(*self, s.parts@),
    {
        match self {
            WorldObjectType::Asteroid { approx_radius } => {
                let points = points_in_circle(*approx_radius);
                let mut parts: Vec<StructurePart> = Vec::new();
                let mut i: usize = 0;
                while i < points.len()
                    invariant
                        i <= points.len(),
                        parts.len() == i,
                        forall|k: int|
                            0 <= k < i ==> part_view(#[trigger] parts@[k]) == (
                                PixelView::Default { variant: PixelVariant::Copper },
                                points@[k],
                            ),
                    decreases points.len() - i,
                {
                    parts.push(
                        StructurePart::Pixel {
                            px: Pixel::default_from_variant(PixelVariant::Copper),
                            relative_location: points[i],
                        },
                    );
                    i = i + 1;
                }
                proof {
                    assert(parts@.map_values(|part: StructurePart| point_vec(part_view(part).1))
                        =~= points@.map_values(|p: RelativePixelPoint| point_vec(p)));
                }
                Structure::new(parts)
            },
        }
    }
}

/// Marks an entity whose world object is still to be generated.
#[derive(Debug, Clone, Copy, PartialEq, Eq, Structural)]
pub struct SpawnWorldObject {
    pub obj_type: WorldObjectType,
}

impl SpawnWorldObject {
    pub fn new(obj_type: WorldObjectType) -> (s: SpawnWorldObject)
        ensures
            s.obj_type == obj_type,
    {
        SpawnWorldObject { obj_type }
    }
}

/// Marks an entity whose children are still to be built from a structure.
#[derive(Debug)]
pub struct SpawnChildStructure {
    pub structure: Structure,
}

impl SpawnChildStructure {
    pub fn new(structure: Structure) -> (s: SpawnChildStructure)
        ensures
            s.structure.parts@ == structure.parts@,
    {
        SpawnChildStructure { structure }
    }
}

/// Builds the structure of a world object that is still to be generated: the
/// entity then gets its children from it.
pub fn hydrate_spawn_world_object(spawn_world_object: &SpawnWorldObject) -> (res: SpawnChildStructure)
    ensures
        generated_parts(spawn_world_object.obj_type, res.structure.parts@),
{
    let structure = spawn_world_object.obj_type.generate_structure();
    SpawnChildStructure::new(structure)
}

/// A point is listed by `points_in_circle` exactly when `in_circle` holds of it.
pub proof fn lemma_points_in_circle_members(points: Seq<RelativePixelPoint>, radius: u8, p: RelativePixelPoint)
    requires
        is_ball_enumeration(points.map_values(|q: RelativePixelPoint| point_vec(q)), radius as int),
    ensures
        points.contains(p) <==> within(p, radius as int),
{
    let vs = points.map_values(|q: RelativePixelPoint| point_vec(q));
    if points.contains(p) {
        let k = choose|k: int| 0 <= k < points.len() && points[k] == p;
        assert(vs[k] == point_vec(p));
        assert(in_ball(vs[k], radius as int));
    }
    if within(p, radius as int) {
        assert(in_ball(point_vec(p), radius as int));
        assert(vs.contains(point_vec(p)));
        let k = choose|k: int| 0 <= k < vs.len() && vs[k] == point_vec(p);
        assert(points[k] == p);
    }
}

/// The locations of a sphere of terrain and the points of an asteroid of the
/// same radius are the same lattice points, in the same order.
pub proof fn lemma_sphere_matches_asteroid(
    sphere: DiscreteSphere,
    locations: Seq<crate::blocks::RelativePixel>,
    points: Seq<RelativePixelPoint>,
)
    requires
        sphere.is_locations(locations),
        is_ball_enumeration(points.map_values(|q: RelativePixelPoint| point_vec(q)), sphere.radius as int),
    ensures
        offsets(locations) == points.map_values(|q: RelativePixelPoint| point_vec(q)),
{
    lemma_ball_enumeration_unique(
        offsets(locations),
        points.map_values(|q: RelativePixelPoint| point_vec(q)),
        sphere.radius as int,
    );
}


/// The world objects of a new world: twenty-five asteroids, each of a radius
/// drawn from one to four. (Where each stands and how it moves is drawn by
/// the renderer.)
pub fn spawn_authoritative_initial_world() -> (objects: Vec<SpawnWorldObject>)
    ensures
        objects.len() == 25,
        forall|i: int|
            0 <= i < objects.len() ==> match (#[trigger] objects@[i]).obj_type {
                WorldObjectType::Asteroid { approx_radius } => 1 <= approx_radius <= 4,
            },
{
    let mut objects: Vec<SpawnWorldObject> = Vec::new();
    let mut i: usize = 0;
    while i < 25
        invariant
            i <= 25,
            objects.len() == i,
            forall|k: int|
                0 <= k < i ==> match (#[trigger] objects@[k]).obj_type {
                    WorldObjectType::Asteroid { approx_radius } => 1 <= approx_radius <= 4,
                },
        decreases 25 - i,
    {
        let approx_radius = gen_range_u8(1, 4);
        objects.push(SpawnWorldObject::new(WorldObjectType::Asteroid { approx_radius }));
        i = i + 1;
    }
    objects
}

} // verus!

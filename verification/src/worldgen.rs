//! Terrain generation: discrete shapes of grid locations and the terrain
//! items that a terrain structure expands into.

use vstd::prelude::*;

use crate::blocks::{OptimizableMaterial, RelativePixel};
use crate::chance::gen_range_u8;
use crate::colour::Colour;
use crate::grid::{lattice_ball, is_ball_enumeration, IVec3};

verus! {

/// The grid vectors of a sequence of positions.
pub open spec fn offsets(s: Seq<RelativePixel>) -> Seq<IVec3> {
    s.map_values(|p: RelativePixel| p.0)
}

/// A sphere on the grid: every location within `radius` of the centre.
#[derive(Debug, Clone, Copy, PartialEq, Eq, Structural)]
pub struct DiscreteSphere {
    pub radius: u8,
}

/// A shape that can be serialized and expands into grid locations.
#[derive(Debug, Clone, Copy, PartialEq, Eq, Structural)]
pub enum OptimizableDiscreteShape {
    Sphere(DiscreteSphere),
    /// The single location at the centre.
    Dot,
}

impl Default for OptimizableDiscreteShape {
    fn default() -> (s: OptimizableDiscreteShape)
        ensures
            s == OptimizableDiscreteShape::Dot,
    {
        OptimizableDiscreteShape::Dot
    }
}

/// Shapes made of distinct grid locations.
pub trait DiscreteLocations: Sized {
    /// Whether `s` lists exactly the locations of this shape, each once.
    spec fn is_locations(&self, s: Seq<RelativePixel>) -> bool;

    /// The locations of this shape, each once.
    fn get_locations(self) -> (res: Vec<RelativePixel>)
        ensures
            self.is_locations(res@),
    ;
}

impl DiscreteLocations for DiscreteSphere {
    /// The lattice points within `radius` of the centre, in increasing order of
    /// `x`, then `y`, then `z`.
    open spec fn is_locations(&self, s: Seq<RelativePixel>) -> bool {
        is_ball_enumeration(offsets(s), self.radius as int)
    }

    /// A location is taken when its distance from the centre is at most the
    /// radius; the squared distance is compared with the squared radius, which
    /// decides the same as comparing their square roots.
    fn get_locations(self) -> (res: Vec<RelativePixel>) {
        let points = lattice_ball(self.radius);
        let mut locations: Vec<RelativePixel> = Vec::new();
        let mut i: usize = 0;
        while i < points.len()
            invariant
                i <= points.len(),
                locations.len() == i,
                forall|k: int| 0 <= k < i ==> (#[trigger] locations@[k]).0 == points@[k],
            decreases points.len() - i,
        {
            locations.push(RelativePixel(points[i]));
            i = i + 1;
        }
        proof {
            assert(offsets(locations@) =~= points@);
        }
        locations
    }
}

impl DiscreteLocations for OptimizableDiscreteShape {
    open spec fn is_locations(&self, s: Seq<RelativePixel>) -> bool {
        match *self {
            OptimizableDiscreteShape::Dot => s == seq![RelativePixel(IVec3 { x: 0, y: 0, z: 0 })],
            OptimizableDiscreteShape::Sphere(sphere) => sphere.is_locations(s),
        }
    }

    fn get_locations(self) -> (res: Vec<RelativePixel>) {
        match self {
            OptimizableDiscreteShape::Dot => {
                let v = vec![RelativePixel::default()];
                assert(v@ =~= seq![RelativePixel(IVec3 { x: 0, y: 0, z: 0 })]);
                v
            },
            OptimizableDiscreteShape::Sphere(sphere) => sphere.get_locations(),
        }
    }
}

/// The kinds of terrain.
#[derive(Debug, Clone, Copy, PartialEq, Eq, Hash, Structural)]
pub enum TerrainType {
    SilicateRock,
}

impl Default for TerrainType {
    fn default() -> (t: TerrainType)
        ensures
            t == TerrainType::SilicateRock,
    {
        TerrainType::SilicateRock
    }
}

impl TerrainType {
    /// The name of the terrain kind, as written in its declaration.
    pub fn name(&self) -> (res: &'static str)
        ensures
            res@ == "SilicateRock"@,
    {
        match self {
            TerrainType::SilicateRock => "SilicateRock",
        }
    }

    /// The material terrain of this kind is drawn with: an opaque grey of
    /// byte components 84, 84, 84.
    pub fn material(&self) -> (res: OptimizableMaterial)
        ensures
            res == OptimizableMaterial::OpaqueColour(Colour::Bytes(84, 84, 84)),
    {
        match self {
            TerrainType::SilicateRock => OptimizableMaterial::OpaqueColour(Colour::Bytes(84, 84, 84)),
        }
    }
}

/// Blueprint of a single terrain unit.
#[derive(Debug, Clone, Copy, PartialEq, Eq, Structural)]
pub struct TerrainItemBlueprint {
    pub terrain_type: TerrainType,
    pub location: RelativePixel,
}

/// Blueprint of a terrain structure: a shape filled with one kind of terrain.
/// (Where the structure stands and how it moves is kept by the renderer.)
#[derive(Debug, Clone, Copy, PartialEq, Eq, Structural)]
pub struct TerrainStructureBlueprint {
    pub shape: OptimizableDiscreteShape,
    pub terrain_type: TerrainType,
}

impl TerrainStructureBlueprint {
    /// One terrain item of the structure's kind at each location of its shape.
    pub fn into_children(self) -> (res: Vec<TerrainItemBlueprint>)
        ensures
            self.shape.is_locations(res@.map_values(|c: TerrainItemBlueprint| c.location)),
            forall|i: int| 0 <= i < res.len() ==> (#[trigger] res@[i]).terrain_type == self.terrain_type,
    {
        let locations = self.shape.get_locations();
        let mut children: Vec<TerrainItemBlueprint> = Vec::new();
        let mut i: usize = 0;
        while i < locations.len()
            invariant
                i <= locations.len(),
                children.len() == i,
                forall|k: int|
                    0 <= k < i ==> #[trigger] children@[k] == (TerrainItemBlueprint {
                        terrain_type: self.terrain_type,
                        location: locations@[k],
                    }),
            decreases locations.len() - i,
        {
            children.push(TerrainItemBlueprint { terrain_type: self.terrain_type, location: locations[i] });
            i = i + 1;
        }
        proof {
            assert(children@.map_values(|c: TerrainItemBlueprint| c.location) =~= locations@);
        }
        children
    }
}


/// Terrain generation.
pub struct WorldGenPlugin;

impl WorldGenPlugin {
    /// The terrain structures of a new world: ten spheres of silicate rock,
    /// each of a radius drawn from one to four. (Where each stands and how it
    /// moves is drawn by the renderer.)
    pub fn creation_spawn_random_world() -> (structures: Vec<TerrainStructureBlueprint>)
        ensures
            structures.len() == 10,
            forall|i: int|
                0 <= i < structures.len() ==> {
                    &&& (#[trigger] structures@[i]).terrain_type == TerrainType::SilicateRock
                    &&& structures@[i].shape matches OptimizableDiscreteShape::Sphere(sphere) && 1 <= sphere.radius
                        <= 4
                },
    {
        let mut structures: Vec<TerrainStructureBlueprint> = Vec::new();
        let mut i: usize = 0;
        while i < 10
            invariant
                i <= 10,
                structures.len() == i,
                forall|k: int|
                    0 <= k < i ==> {
                        &&& (#[trigger] structures@[k]).terrain_type == TerrainType::SilicateRock
                        &&& structures@[k].shape matches OptimizableDiscreteShape::Sphere(sphere) && 1
                            <= sphere.radius <= 4
                    },
            decreases 10 - i,
        {
            let radius = gen_range_u8(1, 4);
            structures.push(
                TerrainStructureBlueprint {
                    shape: OptimizableDiscreteShape::Sphere(DiscreteSphere { radius }),
                    terrain_type: TerrainType::SilicateRock,
                },
            );
            i = i + 1;
        }
        structures
    }
}

} // verus!

//! Blocks: persistent block identifiers, grid positions and facings.

use vstd::prelude::*;

use crate::chance::random_u64;
use crate::colour::Colour;
use crate::grid::{angle_of_trace, relative_trace, rotate, IVec3, Rotation, TurnAngle};

verus! {

/// The unique identifier for a persistent block in the world
#[derive(Debug, Clone, Copy, PartialEq, Eq, Hash, Structural)]
pub struct BlockId(pub u64);

impl BlockId {
    /// A fresh identifier drawn at random.
    pub fn random() -> (id: BlockId) {
        BlockId(random_u64())
    }

    /// The identifier handed out when none was given (zero).
    pub fn default_id() -> (id: BlockId)
        ensures
            id.0 == 0,
    {
        BlockId(0)
    }
}

/// One of the six directions a block can face.
#[derive(Debug, Clone, Copy, PartialEq, Eq, Structural)]
pub enum Facing {
    Up,
    Down,
    Left,
    Right,
    Forwards,
    Backwards,
}

/// The rotation that turns a block from facing forwards (`-Z`) to facing `f`:
/// a half turn about `Y` for backwards, a quarter turn about `Y` for left
/// (positive) and right (negative), a quarter turn about `X` for up (positive)
/// and down (negative).
pub open spec fn facing_rotation(f: Facing) -> Rotation {
    match f {
        Facing::Forwards => Rotation {
            x_axis: IVec3 { x: 1, y: 0, z: 0 },
            y_axis: IVec3 { x: 0, y: 1, z: 0 },
            z_axis: IVec3 { x: 0, y: 0, z: 1 },
        },
        Facing::Backwards => Rotation {
            x_axis: IVec3 { x: -1i32, y: 0, z: 0 },
            y_axis: IVec3 { x: 0, y: 1, z: 0 },
            z_axis: IVec3 { x: 0, y: 0, z: -1i32 },
        },
        Facing::Right => Rotation {
            x_axis: IVec3 { x: 0, y: 0, z: 1 },
            y_axis: IVec3 { x: 0, y: 1, z: 0 },
            z_axis: IVec3 { x: -1i32, y: 0, z: 0 },
        },
        Facing::Left => Rotation {
            x_axis: IVec3 { x: 0, y: 0, z: -1i32 },
            y_axis: IVec3 { x: 0, y: 1, z: 0 },
            z_axis: IVec3 { x: 1, y: 0, z: 0 },
        },
        Facing::Up => Rotation {
            x_axis: IVec3 { x: 1, y: 0, z: 0 },
            y_axis: IVec3 { x: 0, y: 0, z: 1 },
            z_axis: IVec3 { x: 0, y: -1i32, z: 0 },
        },
        Facing::Down => Rotation {
            x_axis: IVec3 { x: 1, y: 0, z: 0 },
            y_axis: IVec3 { x: 0, y: 0, z: -1i32 },
            z_axis: IVec3 { x: 0, y: 1, z: 0 },
        },
    }
}

impl Facing {
    /// The rotation of a block with this facing.
    pub fn into_quat(self) -> (q: Rotation)
        ensures
            q == facing_rotation(self),
            q.wf(),
    {
        match self {
            Facing::Forwards => Rotation::identity(),
            Facing::Backwards => Rotation {
                x_axis: IVec3 { x: -1, y: 0, z: 0 },
                y_axis: IVec3 { x: 0, y: 1, z: 0 },
                z_axis: IVec3 { x: 0, y: 0, z: -1 },
            },
            Facing::Right => Rotation {
                x_axis: IVec3 { x: 0, y: 0, z: 1 },
                y_axis: IVec3 { x: 0, y: 1, z: 0 },
                z_axis: IVec3 { x: -1, y: 0, z: 0 },
            },
            Facing::Left => Rotation {
                x_axis: IVec3 { x: 0, y: 0, z: -1 },
                y_axis: IVec3 { x: 0, y: 1, z: 0 },
                z_axis: IVec3 { x: 1, y: 0, z: 0 },
            },
            Facing::Up => Rotation {
                x_axis: IVec3 { x: 1, y: 0, z: 0 },
                y_axis: IVec3 { x: 0, y: 0, z: 1 },
                z_axis: IVec3 { x: 0, y: -1, z: 0 },
            },
            Facing::Down => Rotation {
                x_axis: IVec3 { x: 1, y: 0, z: 0 },
                y_axis: IVec3 { x: 0, y: 0, z: -1 },
                z_axis: IVec3 { x: 0, y: 1, z: 0 },
            },
        }
    }
}

/// A position on the block grid, relative to the structure it belongs to.
#[derive(Debug, Clone, Copy, PartialEq, Eq, Hash, Structural)]
pub struct RelativePixel(pub IVec3);

impl RelativePixel {
    pub fn new(x: i32, y: i32, z: i32) -> (p: RelativePixel)
        ensures
            p == RelativePixel(IVec3 { x, y, z }),
    {
        Self::from(IVec3::new(x, y, z))
    }
}

impl Default for RelativePixel {
    /// The origin of the structure.
    fn default() -> (p: RelativePixel)
        ensures
            p == RelativePixel(IVec3 { x: 0, y: 0, z: 0 }),
    {
        RelativePixel(IVec3::zero())
    }
}

impl From<IVec3> for RelativePixel {
    fn from(vec: IVec3) -> (p: RelativePixel) {
        RelativePixel(vec)
    }
}

impl vstd::std_specs::convert::FromSpecImpl<IVec3> for RelativePixel {
    open spec fn obeys_from_spec() -> bool {
        true
    }

    open spec fn from_spec(vec: IVec3) -> RelativePixel {
        RelativePixel(vec)
    }
}

/// Used for building structures
#[derive(Debug, Clone, Copy, PartialEq, Eq, Structural)]
pub enum StructureBlockBlueprint {
    Aluminum,
}

impl StructureBlockBlueprint {
    /// The name of the block kind, as written in its declaration.
    pub fn name(&self) -> (res: &'static str)
        ensures
            res@ == "Aluminum"@,
    {
        match self {
            StructureBlockBlueprint::Aluminum => "Aluminum",
        }
    }
}

/// The colour and opacity a material is made with.
#[derive(Debug, Clone, Copy, PartialEq, Eq, Structural)]
pub struct MaterialColour {
    pub colour: Colour,
    /// Opacity in thousandths (`1000` is fully opaque).
    pub alpha_permille: u16,
}

/// A material that can be serialized and is built into a renderer material on demand.
#[derive(Debug, Clone, Copy, PartialEq, Eq)]
pub enum OptimizableMaterial {
    OpaqueColour(Colour),
    /// Fully transparent.
    Transparent,
}

/// The colour and opacity of each material: the colour itself, fully opaque,
/// or fully transparent white.
pub open spec fn material_colour(m: OptimizableMaterial) -> MaterialColour {
    match m {
        OptimizableMaterial::OpaqueColour(col) => MaterialColour { colour: col, alpha_permille: 1000 },
        OptimizableMaterial::Transparent => MaterialColour {
            colour: Colour::Permille(1000, 1000, 1000),
            alpha_permille: 0,
        },
    }
}

impl OptimizableMaterial {
    /// What the renderer material is to be made with.
    pub fn into_material(self) -> (res: MaterialColour)
        ensures
            res == material_colour(self),
    {
        match self {
            OptimizableMaterial::OpaqueColour(col) => MaterialColour { colour: col, alpha_permille: 1000 },
            OptimizableMaterial::Transparent => MaterialColour {
                colour: Colour::Permille(1000, 1000, 1000),
                alpha_permille: 0,
            },
        }
    }

    /// What the renderer material is to be made with, leaving this one in place.
    pub fn get_material(&self) -> (res: MaterialColour)
        ensures
            res == material_colour(*self),
    {
        self.into_material()
    }
}

/// Every facing is a proper rotation; different facings look in different
/// directions; and every facing but backwards is a quarter turn away from
/// forwards, backwards being a half turn.
pub proof fn lemma_facing_rotations(f: Facing, g: Facing)
    ensures
        facing_rotation(f).wf(),
        f != g ==> facing_rotation(f).z_axis != facing_rotation(g).z_axis,
        angle_of_trace(relative_trace(facing_rotation(f), facing_rotation(Facing::Forwards))) == match f {
            Facing::Forwards => TurnAngle::Zero,
            Facing::Backwards => TurnAngle::HalfTurn,
            _ => TurnAngle::QuarterTurn,
        },
{
}

/// Where a block with each facing looks, and how it is turned to get there:
/// a block looks along its turned `-Z` axis, forwards along `-Z`, backwards
/// along `+Z`, left along `-X`, right along `+X`, up along `+Y` and down
/// along `-Y`. Turning to face forwards, backwards, left or right keeps the
/// block upright (its `+Y` stays `+Y`); turning to face up or down tilts it
/// about its `X` axis (its `+X` stays `+X`).
pub proof fn lemma_facing_directions(f: Facing)
    ensures
        f == Facing::Forwards ==> rotate(facing_rotation(f), IVec3 { x: 0, y: 0, z: -1i32 }) == (0int, 0int, -1int),
        f == Facing::Backwards ==> rotate(facing_rotation(f), IVec3 { x: 0, y: 0, z: -1i32 }) == (0int, 0int, 1int),
        f == Facing::Left ==> rotate(facing_rotation(f), IVec3 { x: 0, y: 0, z: -1i32 }) == (-1int, 0int, 0int),
        f == Facing::Right ==> rotate(facing_rotation(f), IVec3 { x: 0, y: 0, z: -1i32 }) == (1int, 0int, 0int),
        f == Facing::Up ==> rotate(facing_rotation(f), IVec3 { x: 0, y: 0, z: -1i32 }) == (0int, 1int, 0int),
        f == Facing::Down ==> rotate(facing_rotation(f), IVec3 { x: 0, y: 0, z: -1i32 }) == (0int, -1int, 0int),
        (f == Facing::Forwards || f == Facing::Backwards || f == Facing::Left || f == Facing::Right) ==> rotate(
            facing_rotation(f),
            IVec3 { x: 0, y: 1, z: 0 },
        ) == (0int, 1int, 0int),
        (f == Facing::Up || f == Facing::Down) ==> rotate(facing_rotation(f), IVec3 { x: 1, y: 0, z: 0 }) == (
            1int,
            0int,
            0int,
        ),
{
}

/// An opaque material keeps its own colour at full opacity; the transparent
/// material lets everything through.
pub proof fn lemma_material_opacity(c: Colour)
    ensures
        material_colour(OptimizableMaterial::OpaqueColour(c)).colour == c,
        material_colour(OptimizableMaterial::OpaqueColour(c)).alpha_permille == 1000,
        material_colour(OptimizableMaterial::Transparent).alpha_permille == 0,
{
}

} // verus!

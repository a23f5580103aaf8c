//! Player movement: the keys a player steers with, the velocity the pressed
//! keys ask for, and the force and torque a thruster exerts on its ship.

use vstd::prelude::*;

use crate::blocks::{facing_rotation, BlockId, Facing, RelativePixel};
use crate::grid::{rotate, IVec3};

verus! {

/// The actions a player steers with.
#[derive(Debug, Clone, Copy, PartialEq, Eq, Hash, Structural)]
pub enum PlayerInput {
    Forward,
    Backward,
    Left,
    Right,
}

/// The keyboard keys bound to player actions.
#[derive(Debug, Clone, Copy, PartialEq, Eq, Hash, Structural)]
pub enum KeyCode {
    W,
    A,
    S,
    D,
}

impl PlayerInput {
    /// How much linear velocity a pressed movement key asks for.
    pub const FORCE_FACTOR: i32 = 2;
    /// How much angular velocity a pressed turning key asks for.
    pub const ROTATION_FACTOR: i32 = 2;

    /// The key bindings: W forwards, S backwards, A left, D right.
    pub fn new() -> (bindings: Vec<(KeyCode, PlayerInput)>)
        ensures
            bindings@ == seq![
                (KeyCode::W, PlayerInput::Forward),
                (KeyCode::S, PlayerInput::Backward),
                (KeyCode::A, PlayerInput::Left),
                (KeyCode::D, PlayerInput::Right),
            ],
    {
        let v = vec![
            (KeyCode::W, PlayerInput::Forward),
            (KeyCode::S, PlayerInput::Backward),
            (KeyCode::A, PlayerInput::Left),
            (KeyCode::D, PlayerInput::Right),
        ];
        assert(v@ =~= seq![
            (KeyCode::W, PlayerInput::Forward),
            (KeyCode::S, PlayerInput::Backward),
            (KeyCode::A, PlayerInput::Left),
            (KeyCode::D, PlayerInput::Right),
        ]);
        v
    }
}

/// Which actions are held down.
#[derive(Debug, Clone, Copy, PartialEq, Eq, Structural)]
pub struct PressedInputs {
    pub forward: bool,
    pub backward: bool,
    pub left: bool,
    pub right: bool,
}

/// The velocity a player asks for, along the three linear and the three
/// angular axes of the ship.
#[derive(Debug, Clone, Copy, PartialEq, Eq, Structural)]
pub struct IntendedVelocity {
    pub forward: i32,
    pub right: i32,
    pub up: i32,
    pub turn_right: i32,
    pub tilt_up: i32,
    pub roll_right: i32,
}

/// `factor` if `b` holds, else nothing.
pub open spec fn if_pressed(b: bool, factor: int) -> int {
    if b {
        factor
    } else {
        0
    }
}

impl Default for IntendedVelocity {
    /// Standing still.
    fn default() -> (v: IntendedVelocity)
        ensures
            v == (IntendedVelocity { forward: 0, right: 0, up: 0, turn_right: 0, tilt_up: 0, roll_right: 0 }),
    {
        IntendedVelocity { forward: 0, right: 0, up: 0, turn_right: 0, tilt_up: 0, roll_right: 0 }
    }
}

/// The decisions of the movement systems.
pub struct PlayerMovementPlugin;

impl PlayerMovementPlugin {
    /// Forward adds and backward takes away the force factor along the
    /// forward axis; right adds and left takes away the rotation factor
    /// about the turning axis; nothing else moves.
    pub fn calculate_intended_velocity(inputs: PressedInputs) -> (v: IntendedVelocity)
        ensures
            v.forward == if_pressed(inputs.forward, PlayerInput::FORCE_FACTOR as int) - if_pressed(
                inputs.backward,
                PlayerInput::FORCE_FACTOR as int,
            ),
            v.turn_right == if_pressed(inputs.right, PlayerInput::ROTATION_FACTOR as int) - if_pressed(
                inputs.left,
                PlayerInput::ROTATION_FACTOR as int,
            ),
            v.right == 0,
            v.up == 0,
            v.tilt_up == 0,
            v.roll_right == 0,
    {
        let mut intended_velocity = IntendedVelocity::default();
        if inputs.forward {
            intended_velocity.forward = intended_velocity.forward + PlayerInput::FORCE_FACTOR;
        }
        if inputs.backward {
            intended_velocity.forward = intended_velocity.forward - PlayerInput::FORCE_FACTOR;
        }
        if inputs.left {
            intended_velocity.turn_right = intended_velocity.turn_right - PlayerInput::ROTATION_FACTOR;
        }
        if inputs.right {
            intended_velocity.turn_right = intended_velocity.turn_right + PlayerInput::ROTATION_FACTOR;
        }
        intended_velocity
    }
}

/// Whether `j` is the last child in `children` with its block id.
pub open spec fn is_last_with_id<T>(children: Seq<(BlockId, T)>, j: int) -> bool {
    &&& 0 <= j < children.len()
    &&& forall|l: int| j < l < children.len() ==> (#[trigger] children[l]).0 != children[j].0
}

/// Whether `selected` holds, once each, every block id of `children` that is
/// one of `thruster_ids`, each with the value of the last child that has it
/// (as collecting them into a map keyed by id keeps).
pub open spec fn is_thruster_selection<T>(
    thruster_ids: Seq<BlockId>,
    children: Seq<(BlockId, T)>,
    selected: Seq<(BlockId, T)>,
) -> bool {
    &&& forall|k: int|
        0 <= k < selected.len() ==> thruster_ids.contains((#[trigger] selected[k]).0) && exists|j: int|
            #[trigger] is_last_with_id(children, j) && children[j] == selected[k]
    &&& forall|k: int, m: int| 0 <= k < m < selected.len() ==> (#[trigger] selected[k]).0 != (#[trigger] selected[m]).0
    &&& forall|j: int|
        0 <= j < children.len() && thruster_ids.contains((#[trigger] children[j]).0) ==> exists|k: int|
            0 <= k < selected.len() && (#[trigger] selected[k]).0 == children[j].0
}

/// Whether `id` is one of `ids`.
fn contains_id(ids: &Vec<BlockId>, id: BlockId) -> (res: bool)
    ensures
        res == ids@.contains(id),
{
    let mut i: usize = 0;
    while i < ids.len()
        invariant
            i <= ids.len(),
            forall|k: int| 0 <= k < i ==> ids@[k] != id,
        decreases ids.len() - i,
    {
        if ids[i].0 == id.0 {
            assert(ids@[i as int] == id);
            return true;
        }
        i = i + 1;
    }
    false
}

/// The position in `pairs` of the pair with block id `id`, if any.
fn position_of_id<T: Copy>(pairs: &Vec<(BlockId, T)>, id: BlockId) -> (res: Option<usize>)
    ensures
        match res {
            Some(k) => k < pairs.len() && pairs@[k as int].0 == id,
            None => forall|k: int| 0 <= k < pairs.len() ==> (#[trigger] pairs@[k]).0 != id,
        },
{
    let mut i: usize = 0;
    while i < pairs.len()
        invariant
            i <= pairs.len(),
            forall|k: int| 0 <= k < i ==> (#[trigger] pairs@[k]).0 != id,
        decreases pairs.len() - i,
    {
        if pairs[i].0.0 == id.0 {
            return Some(i);
        }
        i = i + 1;
    }
    None
}

/// Whether `j` is below `n` and no child from `j` up to `n` has the same id.
spec fn last_below<T>(children: Seq<(BlockId, T)>, j: int, n: int) -> bool {
    &&& 0 <= j < n
    &&& forall|l: int| j < l < n ==> (#[trigger] children[l]).0 != children[j].0
}

/// Each selected pair has a thruster id and is the last child with its id
/// among the first `n` children.
#[verifier::opaque]
spec fn selection_sound<T>(thruster_ids: Seq<BlockId>, children: Seq<(BlockId, T)>, selected: Seq<(BlockId, T)>, n: int) -> bool {
    forall|k: int|
        0 <= k < selected.len() ==> thruster_ids.contains((#[trigger] selected[k]).0) && exists|j: int|
            #[trigger] last_below(children, j, n) && children[j] == selected[k]
}

/// No two selected pairs share an id.
spec fn ids_distinct<T>(selected: Seq<(BlockId, T)>) -> bool {
    forall|k: int, m: int| 0 <= k < m < selected.len() ==> (#[trigger] selected[k]).0 != (#[trigger] selected[m]).0
}

/// Each of the first `n` children with a thruster id has its id selected.
#[verifier::opaque]
spec fn selection_complete<T>(thruster_ids: Seq<BlockId>, children: Seq<(BlockId, T)>, selected: Seq<(BlockId, T)>, n: int) -> bool {
    forall|j: int|
        0 <= j < n && thruster_ids.contains((#[trigger] children[j]).0) ==> exists|k: int|
            0 <= k < selected.len() && (#[trigger] selected[k]).0 == children[j].0
}

/// A child whose id is no thruster id leaves the selection as it is.
proof fn lemma_selection_skip<T>(thruster_ids: Seq<BlockId>, children: Seq<(BlockId, T)>, selected: Seq<(BlockId, T)>, i: int)
    requires
        0 <= i < children.len(),
        !thruster_ids.contains(children[i].0),
        selection_sound(thruster_ids, children, selected, i),
        selection_complete(thruster_ids, children, selected, i),
    ensures
        selection_sound(thruster_ids, children, selected, i + 1),
        selection_complete(thruster_ids, children, selected, i + 1),
{
    reveal(selection_sound);
    reveal(selection_complete);
    assert forall|k: int| 0 <= k < selected.len() implies thruster_ids.contains((#[trigger] selected[k]).0)
        && exists|j: int| #[trigger] last_below(children, j, i + 1) && children[j] == selected[k] by {
        let j = choose|j: int| #[trigger] last_below(children, j, i) && children[j] == selected[k];
        assert(last_below(children, j, i + 1));
    }
}

/// A child with a thruster id already selected takes the place of the
/// earlier one.
proof fn lemma_selection_replace<T>(
    thruster_ids: Seq<BlockId>,
    children: Seq<(BlockId, T)>,
    selected: Seq<(BlockId, T)>,
    i: int,
    k: int,
)
    requires
        0 <= i < children.len(),
        0 <= k < selected.len(),
        thruster_ids.contains(children[i].0),
        selected[k].0 == children[i].0,
        selection_sound(thruster_ids, children, selected, i),
        ids_distinct(selected),
        selection_complete(thruster_ids, children, selected, i),
    ensures
        selection_sound(thruster_ids, children, selected.update(k, children[i]), i + 1),
        ids_distinct(selected.update(k, children[i])),
        selection_complete(thruster_ids, children, selected.update(k, children[i]), i + 1),
{
    let after = selected.update(k, children[i]);
    assert forall|x: int| 0 <= x < after.len() implies (#[trigger] after[x]).0 == selected[x].0 by {
        if x != k {
            assert(after[x] == selected[x]);
        }
    }
    assert(ids_distinct(after)) by {
        assert forall|x: int, y: int| 0 <= x < y < after.len() implies (#[trigger] after[x]).0 != (
        #[trigger] after[y]).0 by {
            assert(after[x].0 == selected[x].0);
            assert(after[y].0 == selected[y].0);
        }
    }
    reveal(selection_sound);
    reveal(selection_complete);
    assert forall|k2: int| 0 <= k2 < after.len() implies thruster_ids.contains((#[trigger] after[k2]).0)
        && exists|j: int| #[trigger] last_below(children, j, i + 1) && children[j] == after[k2] by {
        if k2 == k {
            assert(last_below(children, i, i + 1));
        } else {
            assert(after[k2] == selected[k2]);
            let j = choose|j: int| #[trigger] last_below(children, j, i) && children[j] == selected[k2];
            assert(selected[k2].0 != selected[k].0);
            assert(last_below(children, j, i + 1));
        }
    }
    assert forall|j: int| 0 <= j < i + 1 && thruster_ids.contains((#[trigger] children[j]).0) implies exists|k2: int|
        0 <= k2 < after.len() && (#[trigger] after[k2]).0 == children[j].0 by {
        if j < i {
            let k3 = choose|k3: int| 0 <= k3 < selected.len() && (#[trigger] selected[k3]).0 == children[j].0;
            assert(after[k3].0 == children[j].0);
        } else {
            assert(after[k].0 == children[j].0);
        }
    }
}

/// A child with a thruster id not yet selected is added.
proof fn lemma_selection_push<T>(
    thruster_ids: Seq<BlockId>,
    children: Seq<(BlockId, T)>,
    selected: Seq<(BlockId, T)>,
    i: int,
)
    requires
        0 <= i < children.len(),
        thruster_ids.contains(children[i].0),
        forall|k: int| 0 <= k < selected.len() ==> (#[trigger] selected[k]).0 != children[i].0,
        selection_sound(thruster_ids, children, selected, i),
        ids_distinct(selected),
        selection_complete(thruster_ids, children, selected, i),
    ensures
        selection_sound(thruster_ids, children, selected.push(children[i]), i + 1),
        ids_distinct(selected.push(children[i])),
        selection_complete(thruster_ids, children, selected.push(children[i]), i + 1),
{
    reveal(selection_sound);
    reveal(selection_complete);
    let after = selected.push(children[i]);
    assert forall|k2: int| 0 <= k2 < after.len() implies thruster_ids.contains((#[trigger] after[k2]).0)
        && exists|j: int| #[trigger] last_below(children, j, i + 1) && children[j] == after[k2] by {
        if k2 == selected.len() {
            assert(last_below(children, i, i + 1));
        } else {
            let j = choose|j: int| #[trigger] last_below(children, j, i) && children[j] == selected[k2];
            assert(selected[k2].0 != children[i].0);
            assert(last_below(children, j, i + 1));
        }
    }
    assert forall|j: int| 0 <= j < i + 1 && thruster_ids.contains((#[trigger] children[j]).0) implies exists|k2: int|
        0 <= k2 < after.len() && (#[trigger] after[k2]).0 == children[j].0 by {
        if j < i {
            let k3 = choose|k3: int| 0 <= k3 < selected.len() && (#[trigger] selected[k3]).0 == children[j].0;
            assert(after[k3].0 == children[j].0);
        } else {
            assert(after[selected.len() as int].0 == children[j].0);
        }
    }
}

impl PlayerMovementPlugin {
    /// The thrusters a player's thruster axis is computed from: of the
    /// player's children (each a block id with its placement, of type `T`),
    /// those whose id is one of the ship's thruster ids, one per id.
    pub fn thrusters_for_axis<T: Copy>(thruster_ids: &Vec<BlockId>, children: &Vec<(BlockId, T)>) -> (selected: Vec<
        (BlockId, T),
    >)
        ensures
            is_thruster_selection(thruster_ids@, children@, selected@),
    {
        let mut selected: Vec<(BlockId, T)> = Vec::new();
        let mut i: usize = 0;
        proof {
            reveal(selection_sound);
            reveal(selection_complete);
        }
        while i < children.len()
            invariant
                i <= children.len(),
                selection_sound(thruster_ids@, children@, selected@, i as int),
                ids_distinct(selected@),
                selection_complete(thruster_ids@, children@, selected@, i as int),
            decreases children.len() - i,
        {
            let child = children[i];
            if contains_id(thruster_ids, child.0) {
                match position_of_id(&selected, child.0) {
                    Some(k) => {
                        proof {
                            lemma_selection_replace(thruster_ids@, children@, selected@, i as int, k as int);
                        }
                        selected.set(k, child);
                    },
                    None => {
                        proof {
                            lemma_selection_push(thruster_ids@, children@, selected@, i as int);
                        }
                        selected.push(child);
                    },
                }
            } else {
                proof {
                    lemma_selection_skip(thruster_ids@, children@, selected@, i as int);
                }
            }
            i = i + 1;
        }
        proof {
            reveal(selection_sound);
            reveal(selection_complete);
            assert forall|k: int| 0 <= k < selected.len() implies thruster_ids@.contains(
                (#[trigger] selected@[k]).0,
            ) && exists|j: int| #[trigger] is_last_with_id(children@, j) && children@[j] == selected@[k] by {
                let j = choose|j: int| #[trigger] last_below(children@, j, children.len() as int) && children@[j] == selected@[k];
                assert(is_last_with_id(children@, j));
            }
        }
        selected
    }
}

/// The lever arm `point - center_of_mass`, as mathematical integers.
pub open spec fn lever_arm(point: IVec3, center_of_mass: IVec3) -> (int, int, int) {
    (point.x - center_of_mass.x, point.y - center_of_mass.y, point.z - center_of_mass.z)
}

/// The moment `r × f` of the force `f` about a lever arm `r`, as
/// mathematical integers.
pub open spec fn moment(r: (int, int, int), f: IVec3) -> (int, int, int) {
    (r.1 * f.z - r.2 * f.y, r.2 * f.x - r.0 * f.z, r.0 * f.y - r.1 * f.x)
}

/// Whether the mathematical triple fits an `i32` vector.
pub open spec fn fits(t: (int, int, int)) -> bool {
    &&& i32::MIN <= t.0 <= i32::MAX
    &&& i32::MIN <= t.1 <= i32::MAX
    &&& i32::MIN <= t.2 <= i32::MAX
}

/// The vector holding a triple that fits.
pub open spec fn to_vec(t: (int, int, int)) -> IVec3 {
    IVec3 { x: t.0 as i32, y: t.1 as i32, z: t.2 as i32 }
}

/// Force and torque acting on a rigid body during a step.
#[derive(Debug, Clone, Copy, PartialEq, Eq, Structural)]
pub struct ExternalForce {
    pub force: IVec3,
    pub torque: IVec3,
}

/// A lever arm coordinate times a force coordinate stays within `2^63`.
proof fn lemma_arm_product(a: int, b: int)
    requires
        -0x1_0000_0000 <= a <= 0x1_0000_0000,
        -0x8000_0000 <= b <= 0x8000_0000,
    ensures
        -0x8000_0000_0000_0000 <= a * b <= 0x8000_0000_0000_0000,
{
    assert(-0x8000_0000_0000_0000 <= a * b <= 0x8000_0000_0000_0000) by (nonlinear_arith)
        requires
            -0x1_0000_0000 <= a <= 0x1_0000_0000,
            -0x8000_0000 <= b <= 0x8000_0000,
    ;
}

impl ExternalForce {
    /// A force with no torque.
    pub fn new(force: IVec3) -> (ef: ExternalForce)
        ensures
            ef == (ExternalForce { force, torque: IVec3 { x: 0, y: 0, z: 0 } }),
    {
        ExternalForce { force, torque: IVec3::zero() }
    }

    /// Applies `force` at `point` of a body whose centre of mass is
    /// `center_of_mass`: the force adds to the body's force, and its moment
    /// `(point - center_of_mass) × force` to the body's torque.
    pub fn apply_force_at_point(self, force: IVec3, point: IVec3, center_of_mass: IVec3) -> (ef:
        ExternalForce)
        requires
            fits(
                (
                    self.force.x + force.x,
                    self.force.y + force.y,
                    self.force.z + force.z,
                ),
            ),
            fits(
                (
                    self.torque.x + moment(lever_arm(point, center_of_mass), force).0,
                    self.torque.y + moment(lever_arm(point, center_of_mass), force).1,
                    self.torque.z + moment(lever_arm(point, center_of_mass), force).2,
                ),
            ),
        ensures
            ef.force.x == self.force.x + force.x,
            ef.force.y == self.force.y + force.y,
            ef.force.z == self.force.z + force.z,
            ef.torque.x == self.torque.x + moment(lever_arm(point, center_of_mass), force).0,
            ef.torque.y == self.torque.y + moment(lever_arm(point, center_of_mass), force).1,
            ef.torque.z == self.torque.z + moment(lever_arm(point, center_of_mass), force).2,
    {
        let rx = point.x as i128 - center_of_mass.x as i128;
        let ry = point.y as i128 - center_of_mass.y as i128;
        let rz = point.z as i128 - center_of_mass.z as i128;
        let (fx, fy, fz) = (force.x as i128, force.y as i128, force.z as i128);
        proof {
            lemma_arm_product(ry as int, fz as int);
            lemma_arm_product(rz as int, fy as int);
            lemma_arm_product(rz as int, fx as int);
            lemma_arm_product(rx as int, fz as int);
            lemma_arm_product(rx as int, fy as int);
            lemma_arm_product(ry as int, fx as int);
        }
        let tx = self.torque.x as i128 + (ry * fz - rz * fy);
        let ty = self.torque.y as i128 + (rz * fx - rx * fz);
        let tz = self.torque.z as i128 + (rx * fy - ry * fx);
        ExternalForce {
            force: IVec3 {
                x: self.force.x + force.x,
                y: self.force.y + force.y,
                z: self.force.z + force.z,
            },
            torque: IVec3 { x: tx as i32, y: ty as i32, z: tz as i32 },
        }
    }

    /// The torque.
    pub fn torque(&self) -> (t: IVec3)
        ensures
            t == self.torque,
    {
        self.torque
    }

    /// The force.
    pub fn force(&self) -> (f: IVec3)
        ensures
            f == self.force,
    {
        self.force
    }
}

/// The direction a thruster with `facing` pushes in: its own `+Z` axis,
/// turned by the facing's rotation.
pub open spec fn push_direction(facing: Facing) -> IVec3 {
    to_vec(rotate(facing_rotation(facing), IVec3 { x: 0, y: 0, z: 1 }))
}

/// The force and torque that a thruster at `location`, pushing along its own
/// `+Z` axis turned by `facing`, exerts on a ship whose centre of mass is at
/// `center_of_mass`. The torque has to fit `i32` coordinates.
pub fn thruster_push(location: RelativePixel, facing: Facing, center_of_mass: RelativePixel) -> (ef:
    ExternalForce)
    requires
        fits(moment(lever_arm(location.0, center_of_mass.0), push_direction(facing))),
    ensures
        ef.force == push_direction(facing),
        ef.torque == to_vec(moment(lever_arm(location.0, center_of_mass.0), push_direction(facing))),
{
    let rotation = facing.into_quat();
    let push = rotation.mul_vec3(IVec3::new(0, 0, 1));
    assert(-1 <= push.x <= 1 && -1 <= push.y <= 1 && -1 <= push.z <= 1);
    ExternalForce::new(IVec3::zero()).apply_force_at_point(push, location.0, center_of_mass.0)
}

/// The torque a force exerts is perpendicular to the force, and a force
/// applied at the centre of mass exerts no torque.
pub proof fn lemma_torque_laws(r: (int, int, int), f: IVec3, center_of_mass: IVec3)
    ensures
        moment(r, f).0 * f.x + moment(r, f).1 * f.y + moment(r, f).2 * f.z == 0,
        moment(lever_arm(center_of_mass, center_of_mass), f) == (0int, 0int, 0int),
{
    lemma_triple_product_vanishes(r.0, r.1, r.2, f.x as int, f.y as int, f.z as int);
}

/// `(r × f) · f` vanishes, written out over the coordinates.
proof fn lemma_triple_product_vanishes(a: int, b: int, c: int, x: int, y: int, z: int)
    ensures
        (b * z - c * y) * x + (c * x - a * z) * y + (a * y - b * x) * z == 0,
{
    assert((b * z - c * y) * x == b * z * x - c * y * x) by (nonlinear_arith);
    assert((c * x - a * z) * y == c * x * y - a * z * y) by (nonlinear_arith);
    assert((a * y - b * x) * z == a * y * z - b * x * z) by (nonlinear_arith);
    assert(b * z * x == b * x * z) by (nonlinear_arith);
    assert(c * y * x == c * x * y) by (nonlinear_arith);
    assert(a * z * y == a * y * z) by (nonlinear_arith);
}

/// Turning: the left and right keys ask for opposite turns, and pressing
/// both, like pressing forward and backward together, asks for nothing.
pub proof fn lemma_opposite_keys_cancel(a: bool, b: bool)
    ensures
        if_pressed(a, 2) - if_pressed(b, 2) == -(if_pressed(b, 2) - if_pressed(a, 2)),
        if_pressed(a, 2) - if_pressed(a, 2) == 0,
{
}

} // verus!

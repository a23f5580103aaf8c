//! Weapons mounted on structures, the bullets they fire, and mirroring of
//! the directions they face.

use vstd::prelude::*;

verus! {

/// Mirroring of things placed on a structure.
pub trait Reflection: Sized {
    /// The mirror image across the plane that separates left from right.
    spec fn horizontal_image(self) -> Self;

    /// The mirror image across the plane that separates up from down.
    spec fn vertical_image(self) -> Self;

    fn reflect_horizontally(self) -> (res: Self)
        ensures
            res == self.horizontal_image(),
    ;

    fn reflect_vertically(self) -> (res: Self)
        ensures
            res == self.vertical_image(),
    ;
}

/// A direction relative to a structure.
#[derive(Debug, Clone, Copy, PartialEq, Eq, Hash, Structural)]
pub enum Direction {
    Forward,
    Backward,
    Left,
    Right,
    Up,
    Down,
}

impl Reflection for Direction {
    /// Left and right trade places; the other directions stay.
    open spec fn horizontal_image(self) -> Direction {
        match self {
            Direction::Left => Direction::Right,
            Direction::Right => Direction::Left,
            other => other,
        }
    }

    /// Up and down trade places; the other directions stay.
    open spec fn vertical_image(self) -> Direction {
        match self {
            Direction::Up => Direction::Down,
            Direction::Down => Direction::Up,
            other => other,
        }
    }

    fn reflect_horizontally(self) -> (res: Direction) {
        match self {
            Direction::Left => Direction::Right,
            Direction::Right => Direction::Left,
            other => other,
        }
    }

    fn reflect_vertically(self) -> (res: Direction) {
        match self {
            Direction::Up => Direction::Down,
            Direction::Down => Direction::Up,
            other => other,
        }
    }
}

/// Static / dynamic information about a bullet, used to spawn it and found on
/// actual bullets.
#[derive(Debug, Clone, Copy, PartialEq, Eq, Structural)]
pub struct BulletInfo {
    /// How long the bullet lives, in milliseconds.
    pub ttl: u64,
}

/// How a weapon fires.
#[derive(Debug, Clone, Copy, PartialEq, Eq, Structural)]
pub struct WeaponInfo {
    /// Ticked every frame, and if it's finished, the weapon can fire
    /// (milliseconds left).
    pub cooldown: u64,
    /// How long it takes to fire a bullet; `cooldown` is set to this upon
    /// firing (milliseconds).
    pub fire_rate: u64,
    /// Info about the bullets spawned by this weapon
    pub bullets_info: BulletInfo,
}

impl WeaponInfo {
    /// Ready to fire, firing every half second, bullets living five seconds.
    pub fn sensible_default() -> (w: WeaponInfo)
        ensures
            w == (WeaponInfo { cooldown: 0, fire_rate: 500, bullets_info: BulletInfo { ttl: 5000 } }),
    {
        WeaponInfo {
            bullets_info: BulletInfo { ttl: 5000 },
            // starts ready to fire
            cooldown: 0,
            fire_rate: 500,
        }
    }
}

/// A weapon facing some direction.
#[derive(Debug, Clone, Copy, PartialEq, Eq, Structural)]
pub struct Weapon {
    pub facing: Direction,
    pub info: WeaponInfo,
}

impl Weapon {
    pub fn new(facing: Direction, info: WeaponInfo) -> (w: Weapon)
        ensures
            w == (Weapon { facing, info }),
    {
        Weapon { facing, info }
    }
}

impl Reflection for Weapon {
    /// The weapon faces the mirrored direction; how it fires is unchanged.
    open spec fn horizontal_image(self) -> Weapon {
        Weapon { facing: self.facing.horizontal_image(), info: self.info }
    }

    open spec fn vertical_image(self) -> Weapon {
        Weapon { facing: self.facing.vertical_image(), info: self.info }
    }

    fn reflect_horizontally(self) -> (res: Weapon) {
        let mut w = self;
        w.facing = w.facing.reflect_horizontally();
        w
    }

    fn reflect_vertically(self) -> (res: Weapon) {
        let mut w = self;
        w.facing = w.facing.reflect_vertically();
        w
    }
}

/// Mirroring a direction twice gives it back, and mirroring left-right and
/// up-down can be done in either order.
pub proof fn lemma_direction_reflection(d: Direction)
    ensures
        d.horizontal_image().horizontal_image() == d,
        d.vertical_image().vertical_image() == d,
        d.horizontal_image().vertical_image() == d.vertical_image().horizontal_image(),
{
}

/// Mirroring a weapon twice gives it back, and mirroring left-right and
/// up-down can be done in either order; how it fires never changes.
pub proof fn lemma_weapon_reflection(w: Weapon)
    ensures
        w.horizontal_image().horizontal_image() == w,
        w.vertical_image().vertical_image() == w,
        w.horizontal_image().vertical_image() == w.vertical_image().horizontal_image(),
        w.horizontal_image().info == w.info,
        w.vertical_image().info == w.info,
{
    lemma_direction_reflection(w.facing);
}

} // verus!

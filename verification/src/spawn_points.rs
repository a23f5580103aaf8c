//! Spawn points: where players enter the world, which player occupies each,
//! how they are laid out, and which collisions with them are ignored.

use vstd::prelude::*;

use crate::blocks::MaterialColour;
use crate::colour::Colour;

verus! {

/// A place where a player can enter the world.
#[derive(Debug, Clone, Copy, PartialEq, Eq, Structural)]
pub struct SpawnPoint {
    /// Network id of the player that occupies this spawn point.
    pub player_occupation: Option<u64>,
}

impl SpawnPoint {
    pub fn new(occupation: Option<u64>) -> (s: SpawnPoint)
        ensures
            s.player_occupation == occupation,
    {
        SpawnPoint { player_occupation: occupation }
    }

    /// The player occupying this spawn point, if any.
    pub fn get_network_id(&self) -> (res: Option<u64>)
        ensures
            res == self.player_occupation,
    {
        self.player_occupation
    }

    /// Lets the player `id` occupy this spawn point.
    pub fn set_network_id(&mut self, id: u64)
        ensures
            final(self).player_occupation == Some(id),
    {
        self.player_occupation = Some(id);
    }
}

/// Whether `i` is the first unoccupied spawn point of `s`.
pub open spec fn is_first_free<T>(s: Seq<(SpawnPoint, T)>, i: int) -> bool {
    &&& 0 <= i < s.len()
    &&& s[i].0.player_occupation is None
    &&& forall|j: int| 0 <= j < i ==> (#[trigger] s[j]).0.player_occupation is Some
}

/// Whether every spawn point of `s` is occupied.
pub open spec fn all_occupied<T>(s: Seq<(SpawnPoint, T)>) -> bool {
    forall|j: int| 0 <= j < s.len() ==> (#[trigger] s[j]).0.player_occupation is Some
}

/// The spawn points of the world, each with where it stands (of type `T`).
pub struct AvailableSpawnPoints<T> {
    pub spawn_points: Vec<(SpawnPoint, T)>,
}

impl<T: Copy> AvailableSpawnPoints<T> {
    /// Returns where the first unoccupied spawn point stands, and lets
    /// `player_occupying` occupy it; `None`, changing nothing, when every spawn
    /// point is occupied.
    pub fn try_get_spawn_location(&mut self, player_occupying: u64) -> (res: Option<T>)
        ensures
            res is None <==> all_occupied(old(self).spawn_points@),
            res is None ==> final(self).spawn_points@ == old(self).spawn_points@,
            res is Some ==> exists|i: int|
                {
                    &&& #[trigger] is_first_free(old(self).spawn_points@, i)
                    &&& res == Some(old(self).spawn_points@[i].1)
                    &&& final(self).spawn_points@ == old(self).spawn_points@.update(
                        i,
                        (SpawnPoint { player_occupation: Some(player_occupying) }, old(self).spawn_points@[i].1),
                    )
                },
    {
        let mut i: usize = 0;
        while i < self.spawn_points.len()
            invariant
                self.spawn_points@ == old(self).spawn_points@,
                i <= self.spawn_points.len(),
                forall|j: int| 0 <= j < i ==> (#[trigger] self.spawn_points@[j]).0.player_occupation is Some,
            decreases self.spawn_points.len() - i,
        {
            if self.spawn_points[i].0.player_occupation.is_none() {
                let location = self.spawn_points[i].1;
                let mut point = self.spawn_points[i].0;
                point.set_network_id(player_occupying);
                self.spawn_points.set(i, (point, location));
                assert(is_first_free(old(self).spawn_points@, i as int));
                return Some(location);
            }
            i = i + 1;
        }
        None
    }
}

/// What the physics engine knows of one side of a collision.
#[derive(Debug, Clone, Copy, PartialEq, Eq, Structural)]
pub struct CollisionEntity {
    /// The spawn point this entity is, if it is one.
    pub spawn_point: Option<SpawnPoint>,
    /// The network id of the player this entity is, if it is a player.
    pub player: Option<u64>,
    /// When this entity is a collider with a parent: the network id of that
    /// parent if the parent is a player, else `None`.
    pub parent_player: Option<Option<u64>>,
}

/// Whether `e1` touching `e2` is a player (or a block of a player) inside the
/// spawn point `e2` that this very player occupies.
pub open spec fn is_self_occupied_contact(e1: CollisionEntity, e2: CollisionEntity) -> bool {
    match e2.spawn_point {
        None => false,
        Some(sp) => match sp.player_occupation {
            None => false,
            Some(id) => match e1.player {
                Some(p) => id == p,
                None => match e1.parent_player {
                    Some(Some(p)) => id == p,
                    _ => false,
                },
            },
        },
    }
}

/// Which material a spawn point is drawn with.
#[derive(Debug, Clone, Copy, PartialEq, Eq, Structural)]
pub enum SpawnPointMaterial {
    Default,
    /// Occupied by the local player.
    Active,
}

/// Where a spawn point stands on the sphere around the world's centre: at an
/// altitude of `altitude_eighths` eighths of a full turn, and at a horizontal
/// angle of `theta_index / theta_count` of a full turn.
#[derive(Debug, Clone, Copy, PartialEq, Eq, Structural)]
pub struct SpawnPointPlacement {
    pub altitude_eighths: i8,
    pub theta_index: u8,
    pub theta_count: u8,
}

/// How many spawn points stand on each horizontal strip: one at each pole,
/// four on the strips between pole and equator, eight on the equator.
pub open spec fn thetas_per_strip(strip: int) -> int {
    if strip == 2 || strip == -2 {
        1
    } else if strip == 1 || strip == -1 {
        4
    } else {
        8
    }
}

/// How many spawn points stand on the strips below `strip`.
pub open spec fn strip_offset(strip: int) -> int {
    if strip <= -2 {
        0
    } else if strip == -1 {
        1
    } else if strip == 0 {
        5
    } else if strip == 1 {
        13
    } else if strip == 2 {
        17
    } else {
        18
    }
}

/// The strip the spawn point at position `i` of the layout stands on.
pub open spec fn strip_of_index(i: int) -> int {
    if i < 1 {
        -2
    } else if i < 5 {
        -1
    } else if i < 13 {
        0
    } else if i < 17 {
        1
    } else {
        2
    }
}

/// The placement at position `i` of the layout.
pub open spec fn placement_at(i: int) -> SpawnPointPlacement {
    SpawnPointPlacement {
        altitude_eighths: strip_of_index(i) as i8,
        theta_index: (i - strip_offset(strip_of_index(i))) as u8,
        theta_count: thetas_per_strip(strip_of_index(i)) as u8,
    }
}

/// The translucent material a spawn point is drawn with (blended).
#[derive(Debug, Clone, Copy, PartialEq, Eq, Structural)]
pub struct TranslucentMaterial {
    pub base_colour: MaterialColour,
    pub emissive: MaterialColour,
    /// In thousandths.
    pub specular_transmission_permille: u16,
    /// In thousandths of a unit of length.
    pub thickness_permille: u32,
    /// Index of refraction, in thousandths.
    pub ior_permille: u16,
}

/// The blueprint of a spawn point that is synchronised over the network.
#[derive(Debug, Clone, Copy, PartialEq, Eq, Structural)]
pub struct SpawnPointBlueprintComponent {
    pub initial_occupation: Option<u64>,
}

/// The networked blueprint of a spawn point: where it stands (of type `T`;
/// the renderer scales it to the spawn point's size) and its blueprint.
#[derive(Debug)]
pub struct SpawnPointBlueprintBundle<T> {
    pub transform: T,
    pub blueprint: SpawnPointBlueprintComponent,
}

impl<T> SpawnPointBlueprintBundle<T> {
    /// A spawn point standing at `at`, occupied from the start by
    /// `initially_occupied` if that is a player.
    pub fn new(at: T, initially_occupied: Option<u64>) -> (b: SpawnPointBlueprintBundle<T>)
        ensures
            b.transform == at,
            b.blueprint.initial_occupation == initially_occupied,
    {
        SpawnPointBlueprintBundle { transform: at, blueprint: SpawnPointBlueprintComponent::new(initially_occupied) }
    }
}

impl SpawnPointBlueprintComponent {
    pub fn new(initially_occupied: Option<u64>) -> (b: SpawnPointBlueprintComponent)
        ensures
            b.initial_occupation == initially_occupied,
    {
        SpawnPointBlueprintComponent { initial_occupation: initially_occupied }
    }

    /// The spawn point this blueprint expands into.
    pub fn spawn_point(&self) -> (s: SpawnPoint)
        ensures
            s.player_occupation == self.initial_occupation,
    {
        SpawnPoint::new(self.initial_occupation)
    }

    /// Half-transparent blue, faintly glowing.
    pub fn get_default_material() -> (m: TranslucentMaterial)
        ensures
            m == (TranslucentMaterial {
                base_colour: MaterialColour { colour: Colour::Permille(0, 0, 1000), alpha_permille: 500 },
                emissive: MaterialColour { colour: Colour::Permille(0, 0, 1000), alpha_permille: 200 },
                specular_transmission_permille: 900,
                thickness_permille: 5000,
                ior_permille: 1330,
            }),
    {
        TranslucentMaterial {
            base_colour: MaterialColour { colour: Colour::Permille(0, 0, 1000), alpha_permille: 500 },
            emissive: MaterialColour { colour: Colour::Permille(0, 0, 1000), alpha_permille: 200 },
            specular_transmission_permille: 900,
            thickness_permille: 5000,
            ior_permille: 1330,
        }
    }

    /// Mostly transparent green, faintly glowing.
    pub fn get_active_material() -> (m: TranslucentMaterial)
        ensures
            m == (TranslucentMaterial {
                base_colour: MaterialColour { colour: Colour::Permille(0, 1000, 0), alpha_permille: 200 },
                emissive: MaterialColour { colour: Colour::Permille(0, 1000, 0), alpha_permille: 200 },
                specular_transmission_permille: 900,
                thickness_permille: 5000,
                ior_permille: 1330,
            }),
    {
        TranslucentMaterial {
            base_colour: MaterialColour { colour: Colour::Permille(0, 1000, 0), alpha_permille: 200 },
            emissive: MaterialColour { colour: Colour::Permille(0, 1000, 0), alpha_permille: 200 },
            specular_transmission_permille: 900,
            thickness_permille: 5000,
            ior_permille: 1330,
        }
    }
}

/// The decisions of the spawn point systems.
pub struct SpawnPointsPlugin;

impl SpawnPointsPlugin {
    /// Whether the physics engine keeps a contact between `entity1` and
    /// `entity2`: it is dropped exactly when one side is a spawn point occupied
    /// by a player and the other side is that player or one of its blocks.
    pub fn filter_non_occupied_collisions(entity1: &CollisionEntity, entity2: &CollisionEntity) -> (keep: bool)
        ensures
            keep == !(is_self_occupied_contact(*entity1, *entity2) || is_self_occupied_contact(
                *entity2,
                *entity1,
            )),
    {
        !(Self::check(entity1, entity2) || Self::check(entity2, entity1))
    }

    fn check(e1: &CollisionEntity, e2: &CollisionEntity) -> (res: bool)
        ensures
            res == is_self_occupied_contact(*e1, *e2),
    {
        match e2.spawn_point {
            None => false,
            Some(spawn_point) => match spawn_point.get_network_id() {
                // this spawn point is not occupied, so no matter
                // what player collides we should allow it
                None => false,
                Some(id) => {
                    if let Some(player) = e1.player {
                        // e1 is the player occupying this spawn point: ignore
                        id == player
                    } else if let Some(parent) = e1.parent_player {
                        match parent {
                            // a block of the player occupying this spawn point: ignore
                            Some(player_of_child_block) => id == player_of_child_block,
                            // block is not a child of any player
                            None => false,
                        }
                    } else {
                        false
                    }
                },
            },
        }
    }

    /// How many spawn points stand on the horizontal strip `strip_height_n`
    /// (from `-2` at the bottom pole to `2` at the top pole).
    pub fn num_thetas_per_strip_n(strip_height_n: i8) -> (n: u8)
        requires
            -2 <= strip_height_n <= 2,
        ensures
            n == thetas_per_strip(strip_height_n as int),
    {
        match strip_height_n {
            2 | -2 => 1,
            1 | -1 => 4,
            _ => 8,
        }
    }

    /// The spawn points of a new world, each standing at its placement and
    /// free at the start (see [Self::spawn_point_placements]).
    pub fn creation_spawn_points() -> (res: Vec<SpawnPointBlueprintBundle<SpawnPointPlacement>>)
        ensures
            res.len() == 18,
            forall|i: int|
                0 <= i < 18 ==> (#[trigger] res@[i]).transform == placement_at(i)
                    && res@[i].blueprint.initial_occupation is None,
    {
        let placements = Self::spawn_point_placements();
        let mut res: Vec<SpawnPointBlueprintBundle<SpawnPointPlacement>> = Vec::new();
        let mut i: usize = 0;
        while i < placements.len()
            invariant
                placements.len() == 18,
                forall|k: int| 0 <= k < 18 ==> #[trigger] placements@[k] == placement_at(k),
                i <= placements.len(),
                res.len() == i,
                forall|k: int|
                    0 <= k < i ==> (#[trigger] res@[k]).transform == placement_at(k)
                        && res@[k].blueprint.initial_occupation is None,
            decreases placements.len() - i,
        {
            res.push(SpawnPointBlueprintBundle::new(placements[i], None));
            i = i + 1;
        }
        res
    }

    /// Where the spawn points of a new world stand: strip by strip from the
    /// bottom pole (`-2`) to the top pole (`2`), each strip's points evenly
    /// spread around, starting at angle zero.
    pub fn spawn_point_placements() -> (res: Vec<SpawnPointPlacement>)
        ensures
            res.len() == 18,
            forall|i: int| 0 <= i < 18 ==> #[trigger] res@[i] == placement_at(i),
    {
        let mut res: Vec<SpawnPointPlacement> = Vec::new();
        let mut strip: i8 = -2;
        while strip <= 2
            invariant
                -2 <= strip <= 3,
                res.len() == strip_offset(strip as int),
                forall|s: int, t: int|
                    -2 <= s < strip && 0 <= t < thetas_per_strip(s) ==> #[trigger] res@[strip_offset(s)
                        + t] == (SpawnPointPlacement {
                        altitude_eighths: s as i8,
                        theta_index: t as u8,
                        theta_count: thetas_per_strip(s) as u8,
                    }),
            decreases 3 - strip,
        {
            let num_thetas = Self::num_thetas_per_strip_n(strip);
            let mut theta_n: u8 = 0;
            while theta_n < num_thetas
                invariant
                    -2 <= strip <= 2,
                    num_thetas == thetas_per_strip(strip as int),
                    theta_n <= num_thetas,
                    res.len() == strip_offset(strip as int) + theta_n,
                    forall|s: int, t: int|
                        -2 <= s < strip && 0 <= t < thetas_per_strip(s) ==> #[trigger] res@[strip_offset(
                            s,
                        ) + t] == (SpawnPointPlacement {
                            altitude_eighths: s as i8,
                            theta_index: t as u8,
                            theta_count: thetas_per_strip(s) as u8,
                        }),
                    forall|t: int|
                        0 <= t < theta_n ==> #[trigger] res@[strip_offset(strip as int) + t] == (
                        SpawnPointPlacement {
                            altitude_eighths: strip,
                            theta_index: t as u8,
                            theta_count: num_thetas,
                        }),
                decreases num_thetas - theta_n,
            {
                res.push(
                    SpawnPointPlacement {
                        altitude_eighths: strip,
                        theta_index: theta_n,
                        theta_count: num_thetas,
                    },
                );
                theta_n = theta_n + 1;
            }
            strip = strip + 1;
        }
        assert forall|i: int| 0 <= i < 18 implies #[trigger] res@[i] == placement_at(i) by {
            let s = strip_of_index(i);
            let t = i - strip_offset(s);
            assert(0 <= t < thetas_per_strip(s));
            assert(res@[strip_offset(s) + t] == placement_at(i));
        }
        res
    }

    /// The material of each spawn point for the local player `local_id`:
    /// active where the local player occupies it, default elsewhere. Without
    /// a local player (`None`) nothing is to change.
    pub fn activate_local_spawn_points(local_id: Option<u64>, spawn_points: &Vec<SpawnPoint>) -> (res:
        Option<Vec<SpawnPointMaterial>>)
        ensures
            local_id is None <==> res is None,
            res matches Some(materials) ==> {
                &&& materials.len() == spawn_points.len()
                &&& forall|i: int|
                    0 <= i < materials.len() ==> #[trigger] materials@[i] == if spawn_points@[i].player_occupation
                        == local_id {
                        SpawnPointMaterial::Active
                    } else {
                        SpawnPointMaterial::Default
                    }
            },
    {
        match local_id {
            None => None,
            Some(id) => {
                let mut materials: Vec<SpawnPointMaterial> = Vec::new();
                let mut i: usize = 0;
                while i < spawn_points.len()
                    invariant
                        local_id == Some(id),
                        i <= spawn_points.len(),
                        materials.len() == i,
                        forall|k: int|
                            0 <= k < i ==> #[trigger] materials@[k] == if spawn_points@[k].player_occupation
                                == local_id {
                                SpawnPointMaterial::Active
                            } else {
                                SpawnPointMaterial::Default
                            },
                    decreases spawn_points.len() - i,
                {
                    let occupied_by_local = match spawn_points[i].get_network_id() {
                        Some(occupant) => occupant == id,
                        None => false,
                    };
                    if occupied_by_local {
                        materials.push(SpawnPointMaterial::Active);
                    } else {
                        materials.push(SpawnPointMaterial::Default);
                    }
                    i = i + 1;
                }
                Some(materials)
            },
        }
    }
}


/// The spawn points after the first free one, at `i`, is given to `player`.
pub open spec fn occupy<T>(s: Seq<(SpawnPoint, T)>, i: int, player: u64) -> Seq<(SpawnPoint, T)> {
    s.update(i, (SpawnPoint { player_occupation: Some(player) }, s[i].1))
}

/// Handing out a spawn point keeps every other spawn point as it was, never
/// frees one, and the next spawn point handed out is a different one.
pub proof fn lemma_spawn_points_handed_out_once<T>(s: Seq<(SpawnPoint, T)>, i: int, player: u64, j: int)
    requires
        is_first_free(s, i),
        is_first_free(occupy(s, i, player), j),
    ensures
        j != i,
        j > i,
        forall|k: int| 0 <= k < s.len() && k != i ==> occupy(s, i, player)[k] == s[k],
        forall|k: int|
            0 <= k < s.len() && (#[trigger] s[k]).0.player_occupation is Some ==> occupy(s, i, player)[k].0.player_occupation
                is Some,
{
    let t = occupy(s, i, player);
    assert(t[i].0.player_occupation is Some);
    if j < i {
        assert(s[j] == t[j]);
    }
}

/// Whether a contact is kept does not depend on which side is named first.
pub proof fn lemma_collision_filter_symmetric(a: CollisionEntity, b: CollisionEntity)
    ensures
        !(is_self_occupied_contact(a, b) || is_self_occupied_contact(b, a)) == !(is_self_occupied_contact(b, a)
            || is_self_occupied_contact(a, b)),
{
}

/// A contact in which no side is an occupied spawn point is always kept.
pub proof fn lemma_unoccupied_contacts_kept(a: CollisionEntity, b: CollisionEntity)
    requires
        !(a.spawn_point matches Some(sp) && sp.player_occupation is Some),
        !(b.spawn_point matches Some(sp) && sp.player_occupation is Some),
    ensures
        !(is_self_occupied_contact(a, b) || is_self_occupied_contact(b, a)),
{
}

/// The shape of the spawn point layout: one point at each pole, four on each
/// strip next to a pole and eight on the equator, mirrored between the two
/// halves; the strips follow each other without gap or overlap, eighteen
/// points in all; and within a strip the points go round in order.
pub proof fn lemma_spawn_layout_shape(strip: int, i: int)
    ensures
        -2 <= strip <= 2 ==> thetas_per_strip(strip) == thetas_per_strip(-strip),
        thetas_per_strip(-2) == 1 && thetas_per_strip(-1) == 4 && thetas_per_strip(0) == 8,
        -2 <= strip <= 2 ==> strip_offset(strip + 1) == strip_offset(strip) + thetas_per_strip(strip),
        strip_offset(-2) == 0 && strip_offset(3) == 18,
        0 <= i < 18 ==> {
            let p = placement_at(i);
            &&& -2 <= p.altitude_eighths <= 2
            &&& p.theta_index < p.theta_count
            &&& p.theta_count == thetas_per_strip(p.altitude_eighths as int)
            &&& i == strip_offset(p.altitude_eighths as int) + p.theta_index
        },
        0 <= i < 17 && placement_at(i).altitude_eighths == placement_at(i + 1).altitude_eighths
            ==> placement_at(i + 1).theta_index == placement_at(i).theta_index + 1,
        0 <= i < 17 && placement_at(i).altitude_eighths != placement_at(i + 1).altitude_eighths
            ==> placement_at(i + 1).altitude_eighths == placement_at(i).altitude_eighths + 1
            && placement_at(i + 1).theta_index == 0,
{
}

} // verus!

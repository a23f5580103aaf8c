//! Players: their names, finding a player by network id, and what firing
//! requests reach.

use vstd::prelude::*;

use crate::blocks::{BlockId, Facing, OptimizableMaterial, RelativePixel, StructureBlockBlueprint};
use crate::colour::Colour;
use crate::cameras::CameraBlockBlueprint;
use crate::grid::IVec3;
use crate::netcode::SERVER_ID;
use crate::spawn_points::{all_occupied, is_first_free, AvailableSpawnPoints, SpawnPoint};
use crate::text::{append_decimal, decimal};

verus! {

/// The name an entity of the player with network id `id` is given.
pub open spec fn player_name(id: nat) -> Seq<char> {
    "Player "@ + decimal(id)
}

/// Whether `i` is the first position of `ids` holding `id`.
pub open spec fn is_first_match(ids: Seq<u64>, id: u64, i: int) -> bool {
    &&& 0 <= i < ids.len()
    &&& ids[i] == id
    &&& forall|j: int| 0 <= j < i ==> ids[j] != id
}

/// Finds the first of `network_ids` that equals `id`.
pub fn find_player(network_ids: &Vec<u64>, id: u64) -> (res: Option<usize>)
    ensures
        match res {
            Some(i) => is_first_match(network_ids@, id, i as int),
            None => forall|j: int| 0 <= j < network_ids.len() ==> network_ids@[j] != id,
        },
{
    let mut i: usize = 0;
    while i < network_ids.len()
        invariant
            i <= network_ids.len(),
            forall|j: int| 0 <= j < i ==> network_ids@[j] != id,
        decreases network_ids.len() - i,
    {
        if network_ids[i] == id {
            return Some(i);
        }
        i = i + 1;
    }
    None
}

/// Marks the entities that are players.
#[derive(Debug, Clone, Copy, PartialEq, Eq, Structural)]
pub struct ControllablePlayer;

/// The player systems.
pub struct PlayerPlugin;

impl PlayerPlugin {
    /// The name of the player with network id `id`: `Player ` and the id in decimal.
    pub fn name_player(id: u64) -> (name: String)
        ensures
            name@ == player_name(id as nat),
    {
        let mut name = "Player ".to_owned();
        append_decimal(&mut name, id);
        name
    }
}

/// The weapon systems of players.
pub struct PlayerWeaponsPlugin;

impl PlayerWeaponsPlugin {
    /// For each firing request (the client id that sent it), the player that
    /// fires: the first of `players` (their network ids) with that id, or
    /// `None` when no player has it.
    pub fn authoritative_spawn_bullets(requests: &Vec<u64>, players: &Vec<u64>) -> (res: Vec<Option<usize>>)
        ensures
            res.len() == requests.len(),
            forall|k: int|
                0 <= k < requests.len() ==> match #[trigger] res@[k] {
                    Some(i) => is_first_match(players@, requests@[k], i as int),
                    None => forall|j: int| 0 <= j < players.len() ==> players@[j] != requests@[k],
                },
    {
        let mut res: Vec<Option<usize>> = Vec::new();
        let mut k: usize = 0;
        while k < requests.len()
            invariant
                k <= requests.len(),
                res.len() == k,
                forall|q: int|
                    0 <= q < k ==> match #[trigger] res@[q] {
                        Some(i) => is_first_match(players@, requests@[q], i as int),
                        None => forall|j: int| 0 <= j < players.len() ==> players@[j] != requests@[q],
                    },
            decreases requests.len() - k,
        {
            res.push(find_player(players, requests[k]));
            k = k + 1;
        }
        res
    }
}

/// Which components a structure entity lacks, to be inserted with their
/// defaults before its parts are spawned as children.
#[derive(Debug, Clone, Copy, PartialEq, Eq, Structural)]
pub struct MissingComponents {
    pub computed_visibility: bool,
    pub global_transform: bool,
    pub visibility: bool,
}

/// Building structures into entities.
pub struct StructuresPlugin;

impl StructuresPlugin {
    /// Given which components the entity has, which to insert: exactly the
    /// missing ones.
    pub fn hydrate_structure(has_computed_visibility: bool, has_global_transform: bool, has_visibility: bool) -> (res:
        MissingComponents)
        ensures
            res == (MissingComponents {
                computed_visibility: !has_computed_visibility,
                global_transform: !has_global_transform,
                visibility: !has_visibility,
            }),
    {
        MissingComponents {
            computed_visibility: !has_computed_visibility,
            global_transform: !has_global_transform,
            visibility: !has_visibility,
        }
    }
}

/// The start screen.
pub struct StartScreen;

impl StartScreen {
    /// The buttons of the start screen, top to bottom.
    pub fn spawn_initial() -> (labels: Vec<&'static str>)
        ensures
            labels.len() == 3,
            labels@[0]@ == "Host Game"@,
            labels@[1]@ == "Join Game"@,
            labels@[2]@ == "Solo"@,
    {
        vec!["Host Game", "Join Game", "Solo"]
    }
}


/// A structure block of a ship, at its place on the ship's grid.
#[derive(Debug, Clone, Copy, PartialEq, Eq, Structural)]
pub struct StructureBlockPlacement {
    pub block: StructureBlockBlueprint,
    pub location: RelativePixel,
}

/// A thruster of a ship: its identity, where it sits and which way it faces.
#[derive(Debug, Clone, Copy, PartialEq, Eq, Structural)]
pub struct ThrusterBlockBlueprint {
    pub id: BlockId,
    pub location: RelativePixel,
    pub facing: Facing,
}

/// The camera block of a ship, where it sits and which way it looks.
#[derive(Debug, Clone, Copy, PartialEq, Eq, Structural)]
pub struct CameraBlockPlacement {
    pub blueprint: CameraBlockBlueprint,
    pub location: RelativePixel,
    pub facing: Facing,
}

impl StructureBlockPlacement {
    /// Structure blocks are opaque silver.
    pub fn material(&self) -> (m: OptimizableMaterial)
        ensures
            m == OptimizableMaterial::OpaqueColour(Colour::Permille(750, 750, 750)),
    {
        OptimizableMaterial::OpaqueColour(Colour::silver())
    }

    /// The name of a structure block's entity: `StructureBlock ` and the name
    /// of its kind.
    pub fn entity_name(&self) -> (name: String)
        ensures
            name@ == "StructureBlock "@ + "Aluminum"@,
    {
        let mut name = "StructureBlock ".to_owned();
        name.append(self.block.name());
        name
    }
}

impl ThrusterBlockBlueprint {
    /// Thrusters are opaque red.
    pub fn material(&self) -> (m: OptimizableMaterial)
        ensures
            m == OptimizableMaterial::OpaqueColour(Colour::Permille(1000, 0, 0)),
    {
        OptimizableMaterial::OpaqueColour(Colour::red())
    }
}

impl CameraBlockPlacement {
    /// Camera blocks are opaque black.
    pub fn material(&self) -> (m: OptimizableMaterial)
        ensures
            m == OptimizableMaterial::OpaqueColour(Colour::Permille(0, 0, 0)),
    {
        OptimizableMaterial::OpaqueColour(Colour::black())
    }
}

/// What a player's ship is built from.
#[derive(Debug)]
pub struct PlayerBlueprintComponent {
    pub structure_children: Vec<StructureBlockPlacement>,
    pub thruster_children: Vec<ThrusterBlockBlueprint>,
    pub primary_camera: CameraBlockPlacement,
}

/// The shape of the ship every player starts with: two aluminium blocks, at
/// the centre and in front of it; a thruster on each side facing outwards;
/// and a camera above the centre, looking forwards.
pub open spec fn is_starting_ship(b: &PlayerBlueprintComponent) -> bool {
    &&& b.structure_children@ == seq![
        StructureBlockPlacement { block: StructureBlockBlueprint::Aluminum, location: RelativePixel(IVec3 { x: 0, y: 0, z: 0 }) },
        StructureBlockPlacement { block: StructureBlockBlueprint::Aluminum, location: RelativePixel(IVec3 { x: 0, y: 0, z: -1i32 }) },
    ]
    &&& b.thruster_children.len() == 2
    &&& b.thruster_children@[0].location == RelativePixel(IVec3 { x: -1i32, y: 0, z: 0 })
    &&& b.thruster_children@[0].facing == Facing::Left
    &&& b.thruster_children@[1].location == RelativePixel(IVec3 { x: 1, y: 0, z: 0 })
    &&& b.thruster_children@[1].facing == Facing::Right
    &&& b.primary_camera.location == RelativePixel(IVec3 { x: 0, y: 1, z: 0 })
    &&& b.primary_camera.facing == Facing::Forwards
}

impl PlayerBlueprintComponent {
    /// The starting ship; its thruster and camera blocks get fresh random ids.
    pub fn new() -> (b: PlayerBlueprintComponent)
        ensures
            is_starting_ship(&b),
    {
        let structure_children = vec![
            StructureBlockPlacement { block: StructureBlockBlueprint::Aluminum, location: RelativePixel::new(0, 0, 0) },
            StructureBlockPlacement { block: StructureBlockBlueprint::Aluminum, location: RelativePixel::new(0, 0, -1) },
        ];
        let thruster_children = vec![
            ThrusterBlockBlueprint { id: BlockId::random(), location: RelativePixel::new(-1, 0, 0), facing: Facing::Left },
            ThrusterBlockBlueprint { id: BlockId::random(), location: RelativePixel::new(1, 0, 0), facing: Facing::Right },
        ];
        let primary_camera = CameraBlockPlacement {
            blueprint: CameraBlockBlueprint { id: BlockId::random() },
            location: RelativePixel::new(0, 1, 0),
            facing: Facing::Forwards,
        };
        let b = PlayerBlueprintComponent { structure_children, thruster_children, primary_camera };
        assert(b.structure_children@ =~= seq![
            StructureBlockPlacement { block: StructureBlockBlueprint::Aluminum, location: RelativePixel(IVec3 { x: 0, y: 0, z: 0 }) },
            StructureBlockPlacement { block: StructureBlockBlueprint::Aluminum, location: RelativePixel(IVec3 { x: 0, y: 0, z: -1i32 }) },
        ]);
        b
    }

    /// The ids of the ship's thrusters, in order.
    pub fn derive_thruster_ids(&self) -> (ids: Vec<BlockId>)
        ensures
            ids.len() == self.thruster_children.len(),
            forall|i: int| 0 <= i < ids.len() ==> #[trigger] ids@[i] == self.thruster_children@[i].id,
    {
        let mut ids: Vec<BlockId> = Vec::new();
        let mut i: usize = 0;
        while i < self.thruster_children.len()
            invariant
                i <= self.thruster_children.len(),
                ids.len() == i,
                forall|k: int| 0 <= k < i ==> #[trigger] ids@[k] == self.thruster_children@[k].id,
            decreases self.thruster_children.len() - i,
        {
            ids.push(self.thruster_children[i].id);
            i = i + 1;
        }
        ids
    }
}

/// The networked blueprint of a player: whose it is and its ship. (Where the
/// player stands is kept by the renderer.)
#[derive(Debug)]
pub struct PlayerBlueprintBundle {
    pub network_id: u64,
    pub blueprint: PlayerBlueprintComponent,
}

impl PlayerBlueprintBundle {
    /// The player `network_id` with the starting ship.
    pub fn new(network_id: u64) -> (b: PlayerBlueprintBundle)
        ensures
            b.network_id == network_id,
            is_starting_ship(&b.blueprint),
    {
        PlayerBlueprintBundle { network_id, blueprint: PlayerBlueprintComponent::new() }
    }
}

/// A child block that expanding a player's blueprint spawns.
#[derive(Debug, Clone, Copy, PartialEq, Eq, Structural)]
pub enum PlayerChildBlueprint {
    Structure(StructureBlockPlacement),
    Thruster(ThrusterBlockBlueprint),
    Camera(CameraBlockPlacement),
}

/// The children a player's ship is expanded into, in order: its structure
/// blocks, then its thrusters, then its primary camera.
pub open spec fn player_children(b: &PlayerBlueprintComponent) -> Seq<PlayerChildBlueprint> {
    b.structure_children@.map_values(|c: StructureBlockPlacement| PlayerChildBlueprint::Structure(c))
        + b.thruster_children@.map_values(|t: ThrusterBlockBlueprint| PlayerChildBlueprint::Thruster(t))
        + seq![PlayerChildBlueprint::Camera(b.primary_camera)]
}

impl PlayerPlugin {
    /// Expands a player's blueprint: the player's previous children are
    /// despawned and these children spawned in their place.
    pub fn handle_spawn_player_blueprints(blueprint: &PlayerBlueprintComponent) -> (children: Vec<
        PlayerChildBlueprint,
    >)
        ensures
            children@ == player_children(blueprint),
    {
        let mut children: Vec<PlayerChildBlueprint> = Vec::new();
        let mut i: usize = 0;
        while i < blueprint.structure_children.len()
            invariant
                i <= blueprint.structure_children.len(),
                children@ == blueprint.structure_children@.take(i as int).map_values(
                    |c: StructureBlockPlacement| PlayerChildBlueprint::Structure(c),
                ),
            decreases blueprint.structure_children.len() - i,
        {
            children.push(PlayerChildBlueprint::Structure(blueprint.structure_children[i]));
            i = i + 1;
            proof {
                assert(children@ =~= blueprint.structure_children@.take(i as int).map_values(
                    |c: StructureBlockPlacement| PlayerChildBlueprint::Structure(c),
                ));
            }
        }
        let ghost structures = children@;
        assert(blueprint.structure_children@.take(i as int) =~= blueprint.structure_children@);
        let mut j: usize = 0;
        while j < blueprint.thruster_children.len()
            invariant
                j <= blueprint.thruster_children.len(),
                children@ == structures + blueprint.thruster_children@.take(j as int).map_values(
                    |t: ThrusterBlockBlueprint| PlayerChildBlueprint::Thruster(t),
                ),
            decreases blueprint.thruster_children.len() - j,
        {
            children.push(PlayerChildBlueprint::Thruster(blueprint.thruster_children[j]));
            j = j + 1;
            proof {
                assert(children@ =~= structures + blueprint.thruster_children@.take(j as int).map_values(
                    |t: ThrusterBlockBlueprint| PlayerChildBlueprint::Thruster(t),
                ));
            }
        }
        assert(blueprint.thruster_children@.take(j as int) =~= blueprint.thruster_children@);
        children.push(PlayerChildBlueprint::Camera(blueprint.primary_camera));
        assert(children@ =~= player_children(blueprint));
        children
    }

    /// Spawns the server's own player at the first free spawn point, which
    /// the server then occupies. Every spawn point being taken is an error
    /// of world creation, so one must be free.
    pub fn creation_spawn_initial<T: Copy>(spawn_points: &mut AvailableSpawnPoints<T>) -> (res: (
        PlayerBlueprintBundle,
        T,
    ))
        requires
            !all_occupied(old(spawn_points).spawn_points@),
        ensures
            res.0.network_id == SERVER_ID,
            is_starting_ship(&res.0.blueprint),
            exists|i: int|
                {
                    &&& #[trigger] is_first_free(old(spawn_points).spawn_points@, i)
                    &&& res.1 == old(spawn_points).spawn_points@[i].1
                    &&& final(spawn_points).spawn_points@ == old(spawn_points).spawn_points@.update(
                        i,
                        (SpawnPoint { player_occupation: Some(SERVER_ID) }, old(spawn_points).spawn_points@[i].1),
                    )
                },
    {
        let location = spawn_points.try_get_spawn_location(SERVER_ID).unwrap();
        (PlayerBlueprintBundle::new(SERVER_ID), location)
    }

    /// Whether a newly spawned camera block becomes the primary camera: when
    /// its parent is a player (`parent_player`, that player's network id) and
    /// that player is the local one (`local_id`).
    pub fn manage_primary_camera(local_id: Option<u64>, parent_player: Option<u64>) -> (res: bool)
        ensures
            res == (parent_player is Some && local_id == parent_player),
    {
        match parent_player {
            Some(player) => match local_id {
                Some(local) => local == player,
                None => false,
            },
            None => false,
        }
    }
}

} // verus!

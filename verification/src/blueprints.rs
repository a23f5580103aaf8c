//! Blueprints: the order in which blueprints are expanded into entities, and
//! the game states the application starts in.

use vstd::prelude::*;

verus! {

/// The steps of blueprint expansion that the blueprints plugin chains.
#[derive(Debug, Clone, Copy, PartialEq, Eq, Hash, Structural)]
pub enum BlueprintsSet {
    ApplyDeferred1,
    /// Adds the blueprint-needs-updating marker to relevant entities.
    MarkChanged,
    ApplyDeferred2,
    /// Expands blueprints that carry the blueprint-needs-updating marker.
    ExpandBlueprints,
    ApplyDeferred3,
}

/// The chain of [BlueprintsSet]s, in the order they run.
pub open spec fn blueprints_chain() -> Seq<BlueprintsSet> {
    seq![
        BlueprintsSet::ApplyDeferred1,
        BlueprintsSet::MarkChanged,
        BlueprintsSet::ApplyDeferred2,
        BlueprintsSet::ExpandBlueprints,
        BlueprintsSet::ApplyDeferred3,
    ]
}

/// Marks an entity that is still being expanded: added in
/// [BlueprintsSet::MarkChanged], and maybe removed in
/// [BlueprintsSet::ExpandBlueprints], depending on the blueprint.
#[derive(Debug, Clone, Copy, PartialEq, Eq, Structural)]
pub struct BlueprintNeedsUpdating;

impl Default for BlueprintNeedsUpdating {
    fn default() -> (m: BlueprintNeedsUpdating)
        ensures
            m == BlueprintNeedsUpdating,
    {
        BlueprintNeedsUpdating
    }
}

/// Configuration of blueprint expansion: the schedule (of type `S`) it runs in.
#[derive(Debug)]
pub struct BlueprintsPlugin<S> {
    schedule: S,
}

impl<S: Copy> BlueprintsPlugin<S> {
    pub closed spec fn schedule_spec(self) -> S {
        self.schedule
    }

    pub fn new(schedule: S) -> (p: BlueprintsPlugin<S>)
        ensures
            p.schedule_spec() == schedule,
    {
        BlueprintsPlugin { schedule }
    }

    /// The schedule the sets are configured in.
    pub fn schedule(&self) -> (s: S)
        ensures
            s == self.schedule_spec(),
    {
        self.schedule
    }

    /// The sets this plugin configures, chained in this order.
    pub fn sets(&self) -> (res: Vec<BlueprintsSet>)
        ensures
            res@ == blueprints_chain(),
    {
        let v = vec![
            BlueprintsSet::ApplyDeferred1,
            BlueprintsSet::MarkChanged,
            BlueprintsSet::ApplyDeferred2,
            BlueprintsSet::ExpandBlueprints,
            BlueprintsSet::ApplyDeferred3,
        ];
        assert(v@ =~= blueprints_chain());
        v
    }
}

/// Makes sure that the blueprints that the player creates are expanded
/// before, so that thruster visuals can be spawned on time.
#[derive(Debug, Clone, Copy, PartialEq, Eq, Hash, Structural)]
pub enum BlueprintExpansion {
    /// Removes the just-expanded markers.
    ClearJustExpandedMarker,
    /// Expands player's blueprint, which also spawns a few children.
    Player,
    SpawnPoints,
    /// Asteroids
    Terrain,
    /// Applies deferred commands.
    Expand1,
    ThrusterBlocks,
    /// Applies deferred commands.
    Expand2,
}

/// The stages of blueprint expansion, in the order they run; the sets of one
/// stage run in any order.
pub open spec fn expansion_stages() -> Seq<Seq<BlueprintExpansion>> {
    seq![
        seq![BlueprintExpansion::ClearJustExpandedMarker],
        seq![BlueprintExpansion::Player, BlueprintExpansion::SpawnPoints, BlueprintExpansion::Terrain],
        seq![BlueprintExpansion::Expand1],
        seq![BlueprintExpansion::ThrusterBlocks],
        seq![BlueprintExpansion::Expand2],
    ]
}

/// The stage a set runs in.
pub open spec fn stage_of(e: BlueprintExpansion) -> int {
    match e {
        BlueprintExpansion::ClearJustExpandedMarker => 0,
        BlueprintExpansion::Player => 1,
        BlueprintExpansion::SpawnPoints => 1,
        BlueprintExpansion::Terrain => 1,
        BlueprintExpansion::Expand1 => 2,
        BlueprintExpansion::ThrusterBlocks => 3,
        BlueprintExpansion::Expand2 => 4,
    }
}

/// The expansion of blueprints of the game.
pub struct BlueprintsExpansionPlugin;

impl BlueprintsExpansionPlugin {
    /// The stages of blueprint expansion, chained in this order.
    pub fn stages() -> (res: Vec<Vec<BlueprintExpansion>>)
        ensures
            res@.map_values(|stage: Vec<BlueprintExpansion>| stage@) == expansion_stages(),
    {
        let v = vec![
            vec![BlueprintExpansion::ClearJustExpandedMarker],
            vec![BlueprintExpansion::Player, BlueprintExpansion::SpawnPoints, BlueprintExpansion::Terrain],
            vec![BlueprintExpansion::Expand1],
            vec![BlueprintExpansion::ThrusterBlocks],
            vec![BlueprintExpansion::Expand2],
        ];
        assert(v@[0]@ =~= expansion_stages()[0]);
        assert(v@[1]@ =~= expansion_stages()[1]);
        assert(v@[2]@ =~= expansion_stages()[2]);
        assert(v@[3]@ =~= expansion_stages()[3]);
        assert(v@[4]@ =~= expansion_stages()[4]);
        assert(v@.map_values(|stage: Vec<BlueprintExpansion>| stage@) =~= expansion_stages());
        v
    }
}

/// The states that are truly irreconcilable, that fully clear all affected
/// entities.
#[derive(Debug, Clone, Copy, PartialEq, Eq, Hash, Structural)]
pub enum GlobalGameStates {
    StartMenu,
    InGame,
}

impl Default for GlobalGameStates {
    fn default() -> (s: GlobalGameStates)
        ensures
            s == GlobalGameStates::StartMenu,
    {
        GlobalGameStates::StartMenu
    }
}

/// The game-wide system sets of the fixed-update schedule.
#[derive(Debug, Clone, Copy, PartialEq, Eq, Hash, Structural)]
pub enum GlobalSystemSet {
    /// Player movement and thrusters.
    PlayerMovement,
    /// The physics engine's own steps.
    RawPhysics,
    /// The game's rules.
    GameLogic,
    /// Expanding blueprints into entities.
    BlueprintExpansion,
    /// Creating the world.
    WorldCreation,
}

/// The game-wide sets of the fixed-update schedule, chained in this order.
pub open spec fn fixed_update_chain() -> Seq<GlobalSystemSet> {
    seq![
        GlobalSystemSet::PlayerMovement,
        GlobalSystemSet::RawPhysics,
        GlobalSystemSet::GameLogic,
        GlobalSystemSet::BlueprintExpansion,
        GlobalSystemSet::WorldCreation,
    ]
}

/// The game's top-level configuration.
pub struct MainPlugin;

impl MainPlugin {
    /// The game-wide sets of the fixed-update schedule, in the order they are
    /// chained: player movement, then the physics steps, then the game's
    /// rules, then blueprint expansion, then world creation.
    pub fn fixed_update_sets() -> (res: Vec<GlobalSystemSet>)
        ensures
            res@ == fixed_update_chain(),
    {
        let v = vec![
            GlobalSystemSet::PlayerMovement,
            GlobalSystemSet::RawPhysics,
            GlobalSystemSet::GameLogic,
            GlobalSystemSet::BlueprintExpansion,
            GlobalSystemSet::WorldCreation,
        ];
        assert(v@ =~= fixed_update_chain());
        v
    }

    /// The state the game starts in, given how many command line arguments it
    /// got (the program name included): straight into the game when options
    /// were given, else the start menu.
    pub fn initial_state(arg_count: usize) -> (s: GlobalGameStates)
        ensures
            s == if arg_count > 1 {
                GlobalGameStates::InGame
            } else {
                GlobalGameStates::StartMenu
            },
    {
        if arg_count > 1 {
            GlobalGameStates::InGame
        } else {
            GlobalGameStates::StartMenu
        }
    }
}


/// Each expansion set runs in exactly the stage named for it, and the
/// player's blueprints are expanded before the thruster blocks, so that
/// thruster visuals can be spawned on time.
pub proof fn lemma_player_expands_before_thrusters(e: BlueprintExpansion)
    ensures
        0 <= stage_of(e) < expansion_stages().len(),
        expansion_stages()[stage_of(e)].contains(e),
        stage_of(BlueprintExpansion::Player) < stage_of(BlueprintExpansion::ThrusterBlocks),
        stage_of(BlueprintExpansion::ThrusterBlocks) < stage_of(BlueprintExpansion::Expand2),
{
    match e {
        BlueprintExpansion::ClearJustExpandedMarker => assert(expansion_stages()[0][0] == e),
        BlueprintExpansion::Player => assert(expansion_stages()[1][0] == e),
        BlueprintExpansion::SpawnPoints => assert(expansion_stages()[1][1] == e),
        BlueprintExpansion::Terrain => assert(expansion_stages()[1][2] == e),
        BlueprintExpansion::Expand1 => assert(expansion_stages()[2][0] == e),
        BlueprintExpansion::ThrusterBlocks => assert(expansion_stages()[3][0] == e),
        BlueprintExpansion::Expand2 => assert(expansion_stages()[4][0] == e),
    }
}

/// Each fixed update first moves the players, then steps the physics, then
/// applies the game's rules, then expands blueprints, and creates the world
/// last; every game-wide set runs exactly once.
pub proof fn lemma_fixed_update_order(a: GlobalSystemSet)
    ensures
        fixed_update_chain().len() == 5,
        fixed_update_chain().no_duplicates(),
        fixed_update_chain().contains(a),
        fixed_update_chain()[0] == GlobalSystemSet::PlayerMovement,
        fixed_update_chain()[1] == GlobalSystemSet::RawPhysics,
        fixed_update_chain()[2] == GlobalSystemSet::GameLogic,
        fixed_update_chain()[3] == GlobalSystemSet::BlueprintExpansion,
        fixed_update_chain()[4] == GlobalSystemSet::WorldCreation,
{
    let c = fixed_update_chain();
    match a {
        GlobalSystemSet::PlayerMovement => assert(c[0] == a),
        GlobalSystemSet::RawPhysics => assert(c[1] == a),
        GlobalSystemSet::GameLogic => assert(c[2] == a),
        GlobalSystemSet::BlueprintExpansion => assert(c[3] == a),
        GlobalSystemSet::WorldCreation => assert(c[4] == a),
    }
}

/// Blueprint expansion marks the entities to update before it expands them,
/// and applies the deferred commands before marking, between marking and
/// expanding, and after expanding, so that each step sees what the one
/// before it did.
pub proof fn lemma_marked_before_expanded()
    ensures
        blueprints_chain().len() == 5,
        blueprints_chain()[1] == BlueprintsSet::MarkChanged,
        blueprints_chain()[3] == BlueprintsSet::ExpandBlueprints,
        blueprints_chain()[0] == BlueprintsSet::ApplyDeferred1,
        blueprints_chain()[2] == BlueprintsSet::ApplyDeferred2,
        blueprints_chain()[4] == BlueprintsSet::ApplyDeferred3,
{
}

} // verus!

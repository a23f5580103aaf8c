//! Creating a world: the schedule that creates it and what handling a request
//! to create one runs.

use vstd::prelude::*;

verus! {

/// The schedule that creates a world.
#[derive(Debug, Clone, Copy, PartialEq, Eq, Hash, Structural)]
pub struct WorldCreation;

/// System ordering within the [WorldCreation] schedule.
#[derive(Debug, Clone, Copy, PartialEq, Eq, Hash, Structural)]
pub enum WorldCreationSet {
    Asteroids,
    SpawnPoints,
}

/// A request to create a world.
#[derive(Debug, Clone, Copy, PartialEq, Eq, Structural)]
pub struct CreateWorldEvent;

/// A schedule that handling world creation runs.
#[derive(Debug, Clone, Copy, PartialEq, Eq, Structural)]
pub enum ScheduleRun {
    /// The [WorldCreation] schedule.
    WorldCreation,
    /// The schedule that fully expands blueprints.
    Blueprints,
}

/// The schedules run for `n` requests to create a world, in order: for each
/// request, world creation and then blueprint expansion.
pub open spec fn world_creation_runs(n: nat) -> Seq<ScheduleRun> {
    Seq::new(2 * n, |i: int| if i % 2 == 0 { ScheduleRun::WorldCreation } else { ScheduleRun::Blueprints })
}

pub struct WorldCreationPlugin;

impl WorldCreationPlugin {
    /// The schedules to run in response to the pending requests to create a
    /// world: each request runs the world creation schedule and then the
    /// blueprint schedule, so that what was created gets expanded.
    pub fn handle_world_creation_events(events: &Vec<CreateWorldEvent>) -> (runs: Vec<ScheduleRun>)
        requires
            2 * events.len() <= usize::MAX,
        ensures
            runs@ == world_creation_runs(events.len() as nat),
    {
        let mut runs: Vec<ScheduleRun> = Vec::new();
        let mut i: usize = 0;
        while i < events.len()
            invariant
                i <= events.len(),
                2 * events.len() <= usize::MAX,
                runs@ == world_creation_runs(i as nat),
            decreases events.len() - i,
        {
            runs.push(ScheduleRun::WorldCreation);
            runs.push(ScheduleRun::Blueprints);
            proof {
                assert(runs@ =~= world_creation_runs((i + 1) as nat));
            }
            i = i + 1;
        }
        runs
    }
}

} // verus!

//! What happens on which frame of the simulation.
use vstd::prelude::*;

verus! {

/// Fresh water particles are poured in every this many frames.
pub const SPAWN_INTERVAL: i32 = 5;

/// The report on the free cells is printed every this many frames.
pub const REPORT_INTERVAL: i32 = 20;

/// How many water particles are poured in at a time.
pub const NUM_PARTICLES_SPAWN: usize = 2;

/// How many cells the soap bar is cut into, roughly.
pub const SOAP_NUM_CELLS: usize = 480;

/// The periodic chores of one frame.
#[derive(PartialEq, Eq, Structural, Clone, Copy, Debug)]
pub struct FramePlan {
    /// Pour fresh water particles in before stepping the simulation.
    pub spawn_particles: bool,
    /// Print the report on the free cells after stepping it.
    pub report: bool,
}

/// The chores of the frame numbered `steps` (frames count from 0, paused ones
/// included): while the simulation runs, water is poured in every
/// [`SPAWN_INTERVAL`] frames and the report printed every [`REPORT_INTERVAL`];
/// a paused frame has no chores.
pub fn frame_plan(simulating: bool, steps: i32) -> (plan: FramePlan)
    ensures
        plan.spawn_particles == (simulating && steps % SPAWN_INTERVAL == 0),
        plan.report == (simulating && steps % REPORT_INTERVAL == 0),
{
    FramePlan {
        spawn_particles: simulating && steps % SPAWN_INTERVAL == 0,
        report: simulating && steps % REPORT_INTERVAL == 0,
    }
}

} // verus!

//! What a wet cell goes through in one step of the simulation.
//!
//! A cell touched by the fluid shrinks at a steady rate, ten times faster once
//! it has broken off the bar. The caller does the shrinking (the sizes are
//! real numbers) and tells this module whether the cell is now worn out; the
//! module decides what happens next and carries it out.
use vstd::prelude::*;

use crate::cell::{dissolve_effect, dissolve_soap_cell, SoapCell};
use crate::outside::{boundary_contact, fluid_boundaries, fluid_couplings, world_bodies, world_colliders};

verus! {

/// Whether the fluid acts on a cell in this step: its boundary is still in
/// the liquid world, has sample points (the fluid touches it), and has a
/// record of the fluid's forces on it. Only such a cell erodes.
pub fn is_wet<E>(fluids_pipeline: &salva2d::integrations::rapier::FluidsPipeline, cell: &SoapCell<E>) -> (wet: bool)
    ensures
        wet == (fluid_boundaries(*fluids_pipeline).contains_key(cell.boundary_handle)
            && fluid_boundaries(*fluids_pipeline)[cell.boundary_handle].0 > 0
            && fluid_boundaries(*fluids_pipeline)[cell.boundary_handle].1),
{
    match boundary_contact(fluids_pipeline, cell.boundary_handle) {
        Some((sample_count, records_forces)) => sample_count > 0 && records_forces,
        None => false,
    }
}

/// Which shrink rate applies to a wet cell.
#[derive(PartialEq, Eq, Structural, Clone, Copy, Debug)]
pub enum ShrinkRate {
    /// The slow rate of a cell still on the bar.
    Attached,
    /// The fast rate of a free-floating cell.
    Free,
}

/// The shrink rate of a wet cell: the slow one while it is on the bar, the
/// fast one once it has broken off.
pub fn shrink_rate<E>(cell: &SoapCell<E>) -> (rate: ShrinkRate)
    ensures
        rate == (if cell.attached { ShrinkRate::Attached } else { ShrinkRate::Free }),
{
    if cell.attached {
        ShrinkRate::Attached
    } else {
        ShrinkRate::Free
    }
}

/// What became of a wet cell once it has shrunk.
#[derive(PartialEq, Eq, Structural, Clone, Copy, Debug)]
pub enum WetOutcome {
    /// It was worn out and is now gone from both simulations.
    Dissolved,
    /// It is still there: its collider takes its new size, and, where
    /// `may_break_off` holds, it gets its chance to break off the bar.
    Reshape { may_break_off: bool },
}

/// Finishes a wet cell's step once it has shrunk: a worn-out cell (one whose
/// half extent is down to the minimum or below) is dissolved; any other one is
/// to take its new size, and gets a chance to break off only while it is
/// still on the bar.
pub fn erode_soap_cell<E>(
    cell: &mut SoapCell<E>,
    worn_out: bool,
    world: &mut rapier2d::pipeline::PhysicsWorld,
    fluids_pipeline: &mut salva2d::integrations::rapier::FluidsPipeline,
) -> (outcome: WetOutcome)
    ensures
        worn_out ==> outcome == WetOutcome::Dissolved && dissolve_effect(
            *old(cell),
            *final(cell),
            *old(world),
            *final(world),
            *old(fluids_pipeline),
            *final(fluids_pipeline),
        ),
        worn_out ==> final(cell).dissolved && final(cell).attached == old(cell).attached,
        worn_out ==> fluid_couplings(*final(fluids_pipeline)) == fluid_couplings(*old(fluids_pipeline)).remove(
            old(cell).collider_handle,
        ),
        worn_out ==> fluid_boundaries(*final(fluids_pipeline)) == fluid_boundaries(*old(fluids_pipeline)).remove(
            old(cell).boundary_handle,
        ),
        worn_out && old(cell).attached ==> world_colliders(*final(world)) == world_colliders(*old(world)).remove(
            old(cell).collider_handle,
        ),
        worn_out && old(cell).attached ==> world_bodies(*final(world)) == world_bodies(*old(world)),
        !worn_out ==> {
            &&& outcome == (WetOutcome::Reshape { may_break_off: old(cell).attached })
            &&& *final(cell) == *old(cell)
            &&& *final(world) == *old(world)
            &&& *final(fluids_pipeline) == *old(fluids_pipeline)
        },
{
    if worn_out {
        dissolve_soap_cell(cell, world, fluids_pipeline);
        WetOutcome::Dissolved
    } else {
        WetOutcome::Reshape { may_break_off: cell.attached }
    }
}

} // verus!

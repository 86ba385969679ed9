//! One square cell of the soap bar: its place in the two simulations, and the
//! two things that can happen to it (breaking off the bar, dissolving).
use vstd::prelude::*;

use crate::outside::{
    add_empty_boundary, collider_parent, collider_pose, colliders_off_list,
    default_interaction_groups, fluid_boundaries, fluid_couplings,
    insert_dynamic_body, register_contact_coupling, remove_body, remove_boundary, remove_collider,
    reset_position_wrt_parent, set_collider_parent, unregister_coupling, world_bodies,
    world_body_colliders, world_body_poses, world_collider_poses, world_colliders,
    world_unit_offsets,
};

verus! {

/// One square chunk of the soap bar. It starts parented to the shared soap
/// body; once broken off it has a free-standing body of its own.
///
/// `collider_handle` and `boundary_handle` are the raw parts of the cell's
/// collider handle (physics world) and boundary handle (liquid world).
/// `erosion` is the cell's own state of wear (how big it still is, how long it
/// has been wet), which the caller keeps and this library carries along.
pub struct SoapCell<E> {
    pub collider_handle: (u32, u32),
    pub boundary_handle: (usize, u64),
    pub erosion: E,
    pub attached: bool,
    pub dissolved: bool,
}

impl<E> SoapCell<E> {
    /// A cell on the bar: attached, not dissolved.
    pub fn new(collider_handle: (u32, u32), boundary_handle: (usize, u64), erosion: E) -> (cell: Self)
        ensures
            cell == (SoapCell { collider_handle, boundary_handle, erosion, attached: true, dissolved: false }),
    {
        SoapCell { collider_handle, boundary_handle, erosion, attached: true, dissolved: false }
    }
}

/// The body a collider of `world` hangs from: `None` where the collider is
/// not in the world or has no parent.
pub open spec fn parent_in(world: rapier2d::pipeline::PhysicsWorld, collider: (u32, u32)) -> Option<(u32, u32)> {
    if world_colliders(world).contains_key(collider) {
        world_colliders(world)[collider]
    } else {
        None
    }
}

/// What dissolving `before` into `after` does to the cell and to the two
/// simulations: the cell is marked dissolved and nothing else of it changes;
/// its coupling and its boundary leave the fluid simulation, every other
/// coupling and boundary staying as it was. An attached cell loses its own
/// collider, and nothing else of the physics world changes that the library
/// tracks: the other colliders keep their parents, poses and offsets, the
/// bodies their kind, pose and velocities. A free cell loses the body its
/// collider hangs from, with every collider on that body's list, the other
/// colliders keeping their parents and the other bodies their kind; a free
/// cell whose parent body is not in the world, or that has none, leaves the
/// physics world as it was.
pub open spec fn dissolve_effect<E>(
    before: SoapCell<E>,
    after: SoapCell<E>,
    world_before: rapier2d::pipeline::PhysicsWorld,
    world_after: rapier2d::pipeline::PhysicsWorld,
    fluids_before: salva2d::integrations::rapier::FluidsPipeline,
    fluids_after: salva2d::integrations::rapier::FluidsPipeline,
) -> bool {
    &&& after == (SoapCell { dissolved: true, ..before })
    &&& fluid_couplings(fluids_after) == fluid_couplings(fluids_before).remove(before.collider_handle)
    &&& fluid_boundaries(fluids_after) == fluid_boundaries(fluids_before).remove(before.boundary_handle)
    &&& before.attached ==> {
        &&& world_colliders(world_after) == world_colliders(world_before).remove(before.collider_handle)
        &&& world_bodies(world_after) == world_bodies(world_before)
        &&& world_body_poses(world_after) == world_body_poses(world_before)
        &&& world_collider_poses(world_after) == world_collider_poses(world_before).remove(before.collider_handle)
        &&& world_unit_offsets(world_after) == world_unit_offsets(world_before).remove(before.collider_handle)
    }
    &&& !before.attached ==> match parent_in(world_before, before.collider_handle) {
        Some(body) => if world_bodies(world_before).contains_key(body) {
            &&& world_bodies(world_after) == world_bodies(world_before).remove(body)
            &&& world_body_colliders(world_before).contains_key(body) ==> world_colliders(world_after)
                == colliders_off_list(world_colliders(world_before), world_body_colliders(world_before)[body])
        } else {
            world_after == world_before
        },
        None => world_after == world_before,
    }
}

/// What detaching `before` into `after` does: where the world has the cell's
/// collider, the cell is marked free and nothing else of it changes, and the
/// collider now hangs, at no offset, from a body that is new to the world and
/// is the only body added: a dynamic one, at rest, at the pose the collider had,
/// so the collider does not move. The collider is on the new body's list
/// (unless its recorded parent already named that handle); no collider is added
/// or removed, every other collider keeps its parent, pose and offset, and
/// every other body its kind, pose and velocities. Where the world has not the
/// collider, nothing changes.
pub open spec fn detach_effect<E>(
    before: SoapCell<E>,
    after: SoapCell<E>,
    world_before: rapier2d::pipeline::PhysicsWorld,
    world_after: rapier2d::pipeline::PhysicsWorld,
) -> bool {
    let c = before.collider_handle;
    if world_colliders(world_before).contains_key(c) {
        &&& after == (SoapCell { attached: false, ..before })
        &&& world_colliders(world_after).contains_key(c)
        &&& world_colliders(world_after)[c] matches Some(body) && {
            &&& !world_bodies(world_before).contains_key(body)
            &&& world_bodies(world_after) == world_bodies(world_before).insert(body, true)
            &&& world_body_poses(world_after) == world_body_poses(world_before).insert(
                body,
                (world_collider_poses(world_before)[c], true),
            )
            &&& world_colliders(world_after) == world_colliders(world_before).insert(c, Some(body))
            &&& world_colliders(world_before)[c] != Some(body) ==> world_body_colliders(world_after).contains_key(body)
                && world_body_colliders(world_after)[body].contains(c)
        }
        &&& world_unit_offsets(world_after).contains(c)
        &&& world_unit_offsets(world_after).remove(c) == world_unit_offsets(world_before).remove(c)
        &&& world_collider_poses(world_after).remove(c) == world_collider_poses(world_before).remove(c)
    } else {
        after == before && world_after == world_before
    }
}

/// Fully erodes a cell once it has shrunk too far: drops its coupling and
/// boundary from the fluid simulation and takes it out of the physics world,
/// then marks it dissolved. An attached cell only loses its own collider (the
/// shared soap body and the other cells stay put); a free cell's private body
/// is removed (with its collider), since nothing else refers to it.
pub fn dissolve_soap_cell<E>(
    cell: &mut SoapCell<E>,
    world: &mut rapier2d::pipeline::PhysicsWorld,
    fluids_pipeline: &mut salva2d::integrations::rapier::FluidsPipeline,
)
    ensures
        dissolve_effect(*old(cell), *final(cell), *old(world), *final(world), *old(fluids_pipeline), *final(fluids_pipeline)),
        final(cell).dissolved,
        final(cell).attached == old(cell).attached,
        fluid_couplings(*final(fluids_pipeline)) == fluid_couplings(*old(fluids_pipeline)).remove(old(cell).collider_handle),
        fluid_boundaries(*final(fluids_pipeline)) == fluid_boundaries(*old(fluids_pipeline)).remove(old(cell).boundary_handle),
        old(cell).attached ==> world_colliders(*final(world)) == world_colliders(*old(world)).remove(old(cell).collider_handle),
        old(cell).attached ==> world_bodies(*final(world)) == world_bodies(*old(world)),
{
    let _ = unregister_coupling(fluids_pipeline, cell.collider_handle);
    let _ = remove_boundary(fluids_pipeline, cell.boundary_handle);

    if cell.attached {
        let _ = remove_collider(world, cell.collider_handle);
    } else {
        match collider_parent(world, cell.collider_handle) {
            Some(body) => {
                let _ = remove_body(world, body);
            },
            None => {},
        }
    }

    cell.dissolved = true;
}

/// Breaks a cell off the parent soap body by re-parenting its existing
/// collider onto a brand new free-standing dynamic body, placed at the
/// collider's current pose and at rest (a dynamic body's builder starts with
/// zero linear and angular velocity). The collider keeps its handle, so its coupling
/// with the fluid simulation stays valid; its offset from the new body is
/// reset to none, since the body already sits where the collider is. A cell
/// whose collider is no longer in the world is left as it is.
pub fn detach_soap_cell<E>(cell: &mut SoapCell<E>, world: &mut rapier2d::pipeline::PhysicsWorld)
    ensures
        detach_effect(*old(cell), *final(cell), *old(world), *final(world)),
{
    match collider_pose(world, cell.collider_handle) {
        None => {},
        Some(pose) => {
            let new_body = insert_dynamic_body(world, pose);
            set_collider_parent(world, cell.collider_handle, Some(new_body));
            reset_position_wrt_parent(world, cell.collider_handle);
            cell.attached = false;
            assert(world_colliders(*world) =~= world_colliders(*old(world)).insert(
                cell.collider_handle,
                Some(new_body),
            ));
        },
    }
}

/// Gives a collider a boundary object of its own in the fluid simulation
/// (one without sample points or force record yet, in the fluid engine's
/// default interaction groups: member of group 1, interacting with all) and
/// couples the two, the boundary's samples following the contacts with the
/// fluid. Returns the new boundary's handle.
pub fn couple_new_boundary(
    fluids_pipeline: &mut salva2d::integrations::rapier::FluidsPipeline,
    collider_handle: (u32, u32),
) -> (boundary_handle: (usize, u64))
    ensures
        !fluid_boundaries(*old(fluids_pipeline)).contains_key(boundary_handle),
        fluid_boundaries(*final(fluids_pipeline)) == fluid_boundaries(*old(fluids_pipeline)).insert(boundary_handle, (0usize, false, (1u32, 0xffff_ffffu32))),
        fluid_couplings(*final(fluids_pipeline)) == fluid_couplings(*old(fluids_pipeline)).insert(collider_handle, (boundary_handle, true)),
{
    let boundary_handle = add_empty_boundary(fluids_pipeline, default_interaction_groups());
    let _ = register_contact_coupling(fluids_pipeline, boundary_handle, collider_handle);
    boundary_handle
}

/// Puts a collider of the bar into the fluid simulation (see
/// [`couple_new_boundary`]) and returns it as a cell on the bar.
pub fn new_soap_cell<E>(
    fluids_pipeline: &mut salva2d::integrations::rapier::FluidsPipeline,
    collider_handle: (u32, u32),
    erosion: E,
) -> (cell: SoapCell<E>)
    ensures
        cell.collider_handle == collider_handle,
        cell.erosion == erosion,
        cell.attached,
        !cell.dissolved,
        !fluid_boundaries(*old(fluids_pipeline)).contains_key(cell.boundary_handle),
        fluid_boundaries(*final(fluids_pipeline)) == fluid_boundaries(*old(fluids_pipeline)).insert(cell.boundary_handle, (0usize, false, (1u32, 0xffff_ffffu32))),
        fluid_couplings(*final(fluids_pipeline)) == fluid_couplings(*old(fluids_pipeline)).insert(collider_handle, (cell.boundary_handle, true)),
{
    let boundary_handle = couple_new_boundary(fluids_pipeline, collider_handle);
    SoapCell::new(collider_handle, boundary_handle, erosion)
}

} // verus!

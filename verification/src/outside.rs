//! The physics engine (rapier2d) and the fluid engine (salva2d), as the rest
//! of the library sees them.
//!
//! Every item here is trusted: a declaration of an engine type, a name for
//! what an engine collection holds, or a thin wrapper around an engine call.
//! Engine handles cross this boundary as their raw parts, an (index,
//! generation) pair: two handles are the same exactly when their raw parts
//! are, and a collection holds a handle exactly when the slot at that index is
//! occupied with that generation.
use vstd::prelude::*;

verus! {

#[verifier::external_type_specification]
#[verifier::external_body]
pub struct ExCollider(rapier2d::geometry::Collider);

#[verifier::external_type_specification]
#[verifier::external_body]
pub struct ExRigidBody(rapier2d::dynamics::RigidBody);

#[verifier::external_type_specification]
#[verifier::external_body]
pub struct ExPose(rapier2d::math::Pose);

#[verifier::external_type_specification]
#[verifier::external_body]
pub struct ExPhysicsWorld(rapier2d::pipeline::PhysicsWorld);

#[verifier::external_type_specification]
#[verifier::external_body]
pub struct ExBoundary(salva2d::object::Boundary);

#[verifier::external_type_specification]
#[verifier::external_body]
pub struct ExFluidsPipeline(salva2d::integrations::rapier::FluidsPipeline);

/// The colliders of a physics world, by the raw parts of their handles, each
/// with the raw parts of the handle of the body it is attached to (`None` for
/// a collider without a parent body).
pub uninterp spec fn world_colliders(world: rapier2d::pipeline::PhysicsWorld) -> Map<(u32, u32), Option<(u32, u32)>>;

/// The rigid bodies of a physics world, by the raw parts of their handles,
/// each with whether it is dynamic (moved by forces and contacts).
pub uninterp spec fn world_bodies(world: rapier2d::pipeline::PhysicsWorld) -> Map<(u32, u32), bool>;

/// The colliders of a physics world (by the raw parts of their handles) that
/// have a parent body and sit exactly at their parent's pose: their offset
/// from the parent is the identity.
pub uninterp spec fn world_unit_offsets(world: rapier2d::pipeline::PhysicsWorld) -> Set<(u32, u32)>;

/// The rigid bodies of a physics world, each with its own list of the
/// colliders attached to it (the list the body keeps, which the collider set
/// updates as it attaches and detaches colliders).
pub uninterp spec fn world_body_colliders(world: rapier2d::pipeline::PhysicsWorld) -> Map<(u32, u32), Set<(u32, u32)>>;

/// The rigid bodies of a physics world, each with its pose and whether it is
/// at rest (zero linear and zero angular velocity).
pub uninterp spec fn world_body_poses(world: rapier2d::pipeline::PhysicsWorld) -> Map<(u32, u32), (rapier2d::math::Pose, bool)>;

/// The colliders of a physics world, each with its pose in world
/// coordinates as the collider records it.
pub uninterp spec fn world_collider_poses(world: rapier2d::pipeline::PhysicsWorld) -> Map<(u32, u32), rapier2d::math::Pose>;

/// The colliders that remain of `colliders` once the colliders of `list` are
/// removed, each keeping its parent.
pub open spec fn colliders_off_list(
    colliders: Map<(u32, u32), Option<(u32, u32)>>,
    list: Set<(u32, u32)>,
) -> Map<(u32, u32), Option<(u32, u32)>> {
    colliders.restrict(colliders.dom().difference(list))
}

/// The couplings of a fluids pipeline: the raw parts of each coupled
/// collider's handle, with the raw parts of the handle of its boundary and
/// whether the boundary's samples follow the contacts with the fluid
/// (`ColliderSampling::DynamicContactSampling`).
pub uninterp spec fn fluid_couplings(pipeline: salva2d::integrations::rapier::FluidsPipeline) -> Map<(u32, u32), ((usize, u64), bool)>;

/// The boundary objects of a fluids pipeline's liquid world, by the raw parts
/// of their handles, each with its number of sample points, whether it has a
/// record of the forces the fluid exerts on it, and the bits of its
/// interaction groups (memberships, filter).
pub uninterp spec fn fluid_boundaries(pipeline: salva2d::integrations::rapier::FluidsPipeline) -> Map<(usize, u64), (usize, bool, (u32, u32))>;

/// `ColliderCouplingSet::unregister_coupling` on the pipeline's couplings:
/// the source removes the collider's entry from a hash map keyed by collider
/// handle and hands back the boundary of the removed entry. Claimed: the
/// collider's coupling is gone, the result is the boundary it had (if any),
/// and the liquid world's boundaries are untouched.
#[verifier::external_body]
pub(crate) fn unregister_coupling(
    fluids_pipeline: &mut salva2d::integrations::rapier::FluidsPipeline,
    collider: (u32, u32),
) -> (previous: Option<(usize, u64)>)
    ensures
        fluid_couplings(*final(fluids_pipeline)) == fluid_couplings(*old(fluids_pipeline)).remove(collider),
        fluid_boundaries(*final(fluids_pipeline)) == fluid_boundaries(*old(fluids_pipeline)),
        previous == (if fluid_couplings(*old(fluids_pipeline)).contains_key(collider) {
            Some(fluid_couplings(*old(fluids_pipeline))[collider].0)
        } else {
            None
        }),
{
    let handle = rapier2d::geometry::ColliderHandle::from_raw_parts(collider.0, collider.1);
    match fluids_pipeline.coupling.unregister_coupling(handle) {
        Some(boundary) => Some(Into::<salva2d::object::ContiguousArenaIndex>::into(boundary).into_raw_parts()),
        None => None,
    }
}

/// `ColliderCouplingSet::register_coupling` on the pipeline's couplings,
/// with the sampling method `ColliderSampling::DynamicContactSampling`: the
/// source inserts an entry for the collider (replacing any earlier one) into a
/// hash map keyed by collider handle and hands back the boundary of the
/// replaced entry. Claimed: the collider is now coupled with `boundary`,
/// sampled from the contacts, the result is its earlier boundary (if any),
/// and the liquid world's boundaries are untouched.
#[verifier::external_body]
pub(crate) fn register_contact_coupling(
    fluids_pipeline: &mut salva2d::integrations::rapier::FluidsPipeline,
    boundary: (usize, u64),
    collider: (u32, u32),
) -> (previous: Option<(usize, u64)>)
    ensures
        fluid_couplings(*final(fluids_pipeline)) == fluid_couplings(*old(fluids_pipeline)).insert(collider, (boundary, true)),
        fluid_boundaries(*final(fluids_pipeline)) == fluid_boundaries(*old(fluids_pipeline)),
        previous == (if fluid_couplings(*old(fluids_pipeline)).contains_key(collider) {
            Some(fluid_couplings(*old(fluids_pipeline))[collider].0)
        } else {
            None
        }),
{
    let boundary_handle = salva2d::object::BoundaryHandle::from(
        salva2d::object::ContiguousArenaIndex::from_raw_parts(boundary.0, boundary.1),
    );
    let handle = rapier2d::geometry::ColliderHandle::from_raw_parts(collider.0, collider.1);
    let sampling = salva2d::integrations::rapier::ColliderSampling::DynamicContactSampling;
    match fluids_pipeline.coupling.register_coupling(boundary_handle, handle, sampling) {
        Some(old_boundary) => Some(Into::<salva2d::object::ContiguousArenaIndex>::into(old_boundary).into_raw_parts()),
        None => None,
    }
}

/// `InteractionGroups::default()` of the fluid engine, as the bits of its
/// memberships and filter: in the source, a member of group 1 only
/// (`Group::GROUP_1`, bit 0) that interacts with all groups (`Group::ALL`,
/// every bit). Claimed: exactly those bits.
#[verifier::external_body]
pub(crate) fn default_interaction_groups() -> (groups: (u32, u32))
    ensures
        groups == (1u32, 0xffff_ffffu32),
{
    let groups = salva2d::object::interaction_groups::InteractionGroups::default();
    (groups.memberships.bits(), groups.filter.bits())
}

/// `Boundary::new` with an empty list of particle positions and the
/// interaction groups of the given bits, stored with
/// `LiquidWorld::add_boundary` in the pipeline's liquid world. The source
/// makes a boundary with no positions and no force record (`forces: None`),
/// pushes it and inserts its position into a generational arena, whose new
/// index names no object already there. Claimed: the boundaries gain exactly
/// the returned handle, which is new, with no sample points, no force record
/// and the given groups, and the couplings are untouched.
#[verifier::external_body]
pub(crate) fn add_empty_boundary(
    fluids_pipeline: &mut salva2d::integrations::rapier::FluidsPipeline,
    groups: (u32, u32),
) -> (handle: (usize, u64))
    ensures
        !fluid_boundaries(*old(fluids_pipeline)).contains_key(handle),
        fluid_boundaries(*final(fluids_pipeline)) == fluid_boundaries(*old(fluids_pipeline)).insert(handle, (0usize, false, groups)),
        fluid_couplings(*final(fluids_pipeline)) == fluid_couplings(*old(fluids_pipeline)),
{
    let interaction_groups = salva2d::object::interaction_groups::InteractionGroups::new(
        salva2d::object::interaction_groups::Group::from_bits_retain(groups.0),
        salva2d::object::interaction_groups::Group::from_bits_retain(groups.1),
    );
    let boundary = salva2d::object::Boundary::new(Vec::new(), interaction_groups);
    let added = fluids_pipeline.liquid_world.add_boundary(boundary);
    Into::<salva2d::object::ContiguousArenaIndex>::into(added).into_raw_parts()
}

/// `LiquidWorld::remove_boundary` on the pipeline's liquid world: the source
/// removes the handle from a generational arena (which fails on an unknown
/// index or generation) and hands the object back. Claimed: the boundary is
/// gone, something came back exactly when it was there, and the other
/// boundaries and the couplings are untouched.
#[verifier::external_body]
pub(crate) fn remove_boundary(
    fluids_pipeline: &mut salva2d::integrations::rapier::FluidsPipeline,
    handle: (usize, u64),
) -> (removed: Option<salva2d::object::Boundary>)
    ensures
        fluid_boundaries(*final(fluids_pipeline)) == fluid_boundaries(*old(fluids_pipeline)).remove(handle),
        removed is Some <==> fluid_boundaries(*old(fluids_pipeline)).contains_key(handle),
        fluid_couplings(*final(fluids_pipeline)) == fluid_couplings(*old(fluids_pipeline)),
{
    let boundary_handle = salva2d::object::BoundaryHandle::from(
        salva2d::object::ContiguousArenaIndex::from_raw_parts(handle.0, handle.1),
    );
    fluids_pipeline.liquid_world.remove_boundary(boundary_handle)
}

/// `BoundarySet::get` on the liquid world's boundaries, then the boundary's
/// number of sample positions and whether its `forces` record is there.
/// Claimed: the result is what the boundaries hold for the handle, or `None`
/// where there is no such boundary.
#[verifier::external_body]
pub(crate) fn boundary_contact(
    fluids_pipeline: &salva2d::integrations::rapier::FluidsPipeline,
    handle: (usize, u64),
) -> (contact: Option<(usize, bool)>)
    ensures
        contact == (if fluid_boundaries(*fluids_pipeline).contains_key(handle) {
            Some((fluid_boundaries(*fluids_pipeline)[handle].0, fluid_boundaries(*fluids_pipeline)[handle].1))
        } else {
            None
        }),
{
    let boundary_handle = salva2d::object::BoundaryHandle::from(
        salva2d::object::ContiguousArenaIndex::from_raw_parts(handle.0, handle.1),
    );
    match fluids_pipeline.liquid_world.boundaries().get(boundary_handle) {
        Some(boundary) => match &boundary.forces {
            Some(_) => Some((boundary.positions.len(), true)),
            None => Some((boundary.positions.len(), false)),
        },
        None => None,
    }
}

/// `ColliderSet::remove` on the world's colliders (with the world's islands,
/// bodies and soft bodies, waking the parent body up): the source removes the
/// collider from its arena, takes it off the list of the body its parent
/// handle names (where that body is there), wakes that body (touching neither
/// its pose nor its velocities) and hands the collider back. Claimed: the
/// collider is gone, something came back exactly when it was there, every
/// other collider keeps its parent, pose and offset, and the bodies keep
/// their kind, pose and velocities.
#[verifier::external_body]
pub(crate) fn remove_collider(
    world: &mut rapier2d::pipeline::PhysicsWorld,
    collider: (u32, u32),
) -> (removed: Option<rapier2d::geometry::Collider>)
    ensures
        world_colliders(*final(world)) == world_colliders(*old(world)).remove(collider),
        removed is Some <==> world_colliders(*old(world)).contains_key(collider),
        world_bodies(*final(world)) == world_bodies(*old(world)),
        world_body_poses(*final(world)) == world_body_poses(*old(world)),
        world_collider_poses(*final(world)) == world_collider_poses(*old(world)).remove(collider),
        world_unit_offsets(*final(world)) == world_unit_offsets(*old(world)).remove(collider),
{
    let handle = rapier2d::geometry::ColliderHandle::from_raw_parts(collider.0, collider.1);
    world.colliders.remove(handle, &mut world.islands, &mut world.bodies, &mut world.soft_bodies, true)
}

/// `ColliderSet::get` followed by `Collider::parent`, as in
/// `colliders.get(handle).and_then(|c| c.parent())`: the body a collider is
/// attached to. Claimed: the result is the collider's parent, or `None` where
/// the world has no such collider.
#[verifier::external_body]
pub(crate) fn collider_parent(world: &rapier2d::pipeline::PhysicsWorld, collider: (u32, u32)) -> (parent: Option<(u32, u32)>)
    ensures
        parent == (if world_colliders(*world).contains_key(collider) {
            world_colliders(*world)[collider]
        } else {
            None
        }),
{
    let handle = rapier2d::geometry::ColliderHandle::from_raw_parts(collider.0, collider.1);
    match world.colliders.get(handle) {
        Some(c) => match c.parent() {
            Some(body) => Some(body.into_raw_parts()),
            None => None,
        },
        None => None,
    }
}

/// `ColliderSet::get` followed by `Collider::position`: a copy of the
/// collider's pose in world coordinates. Claimed: a pose comes back exactly
/// when the world has the collider, and it is the collider's recorded pose.
#[verifier::external_body]
pub(crate) fn collider_pose(world: &rapier2d::pipeline::PhysicsWorld, collider: (u32, u32)) -> (pose: Option<rapier2d::math::Pose>)
    ensures
        pose is Some <==> world_colliders(*world).contains_key(collider),
        pose matches Some(p) ==> p == world_collider_poses(*world)[collider],
{
    let handle = rapier2d::geometry::ColliderHandle::from_raw_parts(collider.0, collider.1);
    match world.colliders.get(handle) {
        Some(c) => Some(*c.position()),
        None => None,
    }
}

/// `ColliderSet::set_parent` on the world's colliders and bodies: the source
/// does nothing for an unknown collider or for the parent it already has, and
/// otherwise takes the collider off its old parent's list (where that body is
/// there), records the new parent (keeping the collider's local offset, or
/// starting from none where it had no parent), and where the new parent is
/// there puts the collider on its list and moves the collider's recorded pose
/// to the parent's pose composed with the offset; no body's pose or velocity
/// changes. Claimed: a known collider now has `parent` and, where the parent
/// body is there and was not its parent already, is on that body's list;
/// every other collider keeps its parent, pose and offset; the bodies keep
/// their kind, pose and velocities.
#[verifier::external_body]
pub(crate) fn set_collider_parent(
    world: &mut rapier2d::pipeline::PhysicsWorld,
    collider: (u32, u32),
    parent: Option<(u32, u32)>,
)
    ensures
        world_colliders(*final(world)) == (if world_colliders(*old(world)).contains_key(collider) {
            world_colliders(*old(world)).insert(collider, parent)
        } else {
            world_colliders(*old(world))
        }),
        world_colliders(*old(world)).contains_key(collider) && world_colliders(*old(world))[collider] != parent
            && parent is Some && world_body_colliders(*old(world)).contains_key(parent->0)
            ==> world_body_colliders(*final(world)).contains_key(parent->0)
                && world_body_colliders(*final(world))[parent->0].contains(collider),
        world_bodies(*final(world)) == world_bodies(*old(world)),
        world_body_poses(*final(world)) == world_body_poses(*old(world)),
        world_collider_poses(*final(world)).dom() == world_collider_poses(*old(world)).dom(),
        world_collider_poses(*final(world)).remove(collider) == world_collider_poses(*old(world)).remove(collider),
        world_unit_offsets(*final(world)).remove(collider) == world_unit_offsets(*old(world)).remove(collider),
{
    let handle = rapier2d::geometry::ColliderHandle::from_raw_parts(collider.0, collider.1);
    let parent_handle = match parent {
        Some(body) => Some(rapier2d::dynamics::RigidBodyHandle::from_raw_parts(body.0, body.1)),
        None => None,
    };
    world.colliders.set_parent(handle, parent_handle, &mut world.bodies)
}

/// `ColliderSet::get_mut` followed by `Collider::set_position_wrt_parent`
/// with `Pose::IDENTITY`: the source sets the offset of a known collider that
/// has a parent to the identity, and ignores any other; nothing else changes
/// (the collider's recorded world pose follows at the next step). Claimed:
/// such a collider now has the identity offset, every other collider keeps
/// its offset, and no collider, parent, list, pose or velocity changes.
#[verifier::external_body]
pub(crate) fn reset_position_wrt_parent(world: &mut rapier2d::pipeline::PhysicsWorld, collider: (u32, u32))
    ensures
        world_colliders(*old(world)).contains_key(collider) && world_colliders(*old(world))[collider] is Some
            ==> world_unit_offsets(*final(world)).contains(collider),
        world_unit_offsets(*final(world)).remove(collider) == world_unit_offsets(*old(world)).remove(collider),
        world_colliders(*final(world)) == world_colliders(*old(world)),
        world_bodies(*final(world)) == world_bodies(*old(world)),
        world_body_colliders(*final(world)) == world_body_colliders(*old(world)),
        world_body_poses(*final(world)) == world_body_poses(*old(world)),
        world_collider_poses(*final(world)) == world_collider_poses(*old(world)),
{
    let handle = rapier2d::geometry::ColliderHandle::from_raw_parts(collider.0, collider.1);
    if let Some(c) = world.colliders.get_mut(handle) {
        c.set_position_wrt_parent(rapier2d::math::Pose::IDENTITY)
    }
}

/// `RigidBodyBuilder::dynamic()` with `RigidBodyBuilder::pose`, built and
/// stored with `RigidBodySet::insert` in the world's bodies. The source builds
/// a dynamic body at `pose` with zero linear and angular velocity, and
/// inserts it into a generational arena, whose new index names no body
/// already there, with an empty list of colliders. Claimed: the bodies gain
/// exactly the returned handle, which is new, for a dynamic body at `pose`,
/// at rest, with no colliders, and the colliders are untouched.
#[verifier::external_body]
pub(crate) fn insert_dynamic_body(world: &mut rapier2d::pipeline::PhysicsWorld, pose: rapier2d::math::Pose) -> (handle: (u32, u32))
    ensures
        !world_bodies(*old(world)).contains_key(handle),
        world_bodies(*final(world)) == world_bodies(*old(world)).insert(handle, true),
        world_body_colliders(*final(world)) == world_body_colliders(*old(world)).insert(handle, Set::empty()),
        world_body_poses(*final(world)) == world_body_poses(*old(world)).insert(handle, (pose, true)),
        world_colliders(*final(world)) == world_colliders(*old(world)),
        world_collider_poses(*final(world)) == world_collider_poses(*old(world)),
        world_unit_offsets(*final(world)) == world_unit_offsets(*old(world)),
{
    let body = rapier2d::dynamics::RigidBodyBuilder::dynamic().pose(pose).build();
    world.bodies.insert(body).into_raw_parts()
}

/// `RigidBodySet::remove` on the world's bodies (with the world's islands,
/// colliders, joints and soft bodies), removing the colliders attached to the
/// body too. The source does nothing where the body is not there. Otherwise
/// (after reshaping a soft-body proxy's cluster colliders, adding and removing
/// none) it removes the body from its arena, removes each collider on the
/// body's own list of colliders, and the joints attached to the body.
/// Claimed: the body is gone and every other body keeps its kind; something
/// came back exactly when it was there; where it was there, the colliders left
/// are exactly those not on its list, each keeping its parent; where it was
/// not, the world is untouched. Which poses, velocities and offsets the joint
/// and soft-body clean-up touches is left unsaid.
#[verifier::external_body]
pub(crate) fn remove_body(
    world: &mut rapier2d::pipeline::PhysicsWorld,
    body: (u32, u32),
) -> (removed: Option<rapier2d::dynamics::RigidBody>)
    ensures
        world_bodies(*final(world)) == world_bodies(*old(world)).remove(body),
        removed is Some <==> world_bodies(*old(world)).contains_key(body),
        world_bodies(*old(world)).contains_key(body) && world_body_colliders(*old(world)).contains_key(body)
            ==> world_colliders(*final(world)) == colliders_off_list(
                world_colliders(*old(world)),
                world_body_colliders(*old(world))[body],
            ),
        !world_bodies(*old(world)).contains_key(body) ==> *final(world) == *old(world),
{
    let handle = rapier2d::dynamics::RigidBodyHandle::from_raw_parts(body.0, body.1);
    world.bodies.remove(
        handle,
        &mut world.islands,
        &mut world.colliders,
        &mut world.impulse_joints,
        &mut world.multibody_joints,
        &mut world.soft_bodies,
        true,
    )
}

} // verus!

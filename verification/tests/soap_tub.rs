use rapier2d::dynamics::{RigidBodyBuilder, RigidBodyHandle};
use rapier2d::geometry::{ColliderBuilder, ColliderHandle};
use rapier2d::pipeline::PhysicsWorld;
use salva2d::integrations::rapier::FluidsPipeline;
use salva2d::object::{BoundaryHandle, ContiguousArenaIndex};

use soap_tub::cell::{detach_soap_cell, dissolve_soap_cell, new_soap_cell, SoapCell};
use soap_tub::erosion::{erode_soap_cell, is_wet, shrink_rate, ShrinkRate, WetOutcome};
use soap_tub::roster::{detached_report, remove_dissolved, DetachedReport};
use soap_tub::schedule::{frame_plan, FramePlan};

struct Bar {
    world: PhysicsWorld,
    fluids: FluidsPipeline,
    soap_body: RigidBodyHandle,
    colliders: Vec<ColliderHandle>,
    cells: Vec<SoapCell<f32>>,
}

fn boundary_handle(raw: (usize, u64)) -> BoundaryHandle {
    BoundaryHandle::from(ContiguousArenaIndex::from_raw_parts(raw.0, raw.1))
}

/// A soap body with `n` cells side by side, each coupled with the fluid.
fn bar(n: usize) -> Bar {
    let mut world = PhysicsWorld::new();
    let mut fluids = FluidsPipeline::new(0.1, 2.0);
    let soap_body = world.bodies.insert(RigidBodyBuilder::dynamic().lock_translations().lock_rotations().build());
    let mut colliders = Vec::new();
    let mut cells = Vec::new();
    for i in 0..n {
        let collider = ColliderBuilder::cuboid(0.1, 0.1)
            .translation(rapier2d::math::Vector::new(i as f32 * 0.2, 0.0))
            .build();
        let handle = world.colliders.insert_with_parent(collider, soap_body, &mut world.bodies);
        colliders.push(handle);
        cells.push(new_soap_cell(&mut fluids, handle.into_raw_parts(), 0.1f32));
    }
    Bar { world, fluids, soap_body, colliders, cells }
}

#[test]
fn new_cells_are_attached_and_coupled_with_fresh_boundaries() {
    let b = bar(3);
    for (cell, handle) in b.cells.iter().zip(b.colliders.iter()) {
        assert!(cell.attached);
        assert!(!cell.dissolved);
        assert_eq!(cell.collider_handle, handle.into_raw_parts());
        assert_eq!(cell.erosion, 0.1f32);
        let coupled = b.fluids.coupling.entries.get(handle).expect("coupled");
        assert_eq!(coupled.boundary, boundary_handle(cell.boundary_handle));
        assert!(matches!(
            coupled.sampling_method,
            salva2d::integrations::rapier::ColliderSampling::DynamicContactSampling
        ));
        let boundary = b.fluids.liquid_world.boundaries().get(boundary_handle(cell.boundary_handle)).unwrap();
        assert!(boundary.positions.is_empty());
        assert!(boundary.forces.is_none());
        assert_eq!(
            boundary.interaction_groups,
            salva2d::object::interaction_groups::InteractionGroups::default()
        );
    }
    assert_ne!(b.cells[0].boundary_handle, b.cells[1].boundary_handle);
    assert_ne!(b.cells[1].boundary_handle, b.cells[2].boundary_handle);
    assert_eq!(b.fluids.liquid_world.boundaries().len(), 3);
}

#[test]
fn dissolving_an_attached_cell_removes_only_its_collider() {
    let mut b = bar(2);
    let mut cell = b.cells.remove(0);
    dissolve_soap_cell(&mut cell, &mut b.world, &mut b.fluids);
    assert!(cell.dissolved);
    assert!(cell.attached);
    assert!(b.world.colliders.get(b.colliders[0]).is_none());
    assert!(b.world.colliders.get(b.colliders[1]).is_some());
    assert!(b.world.bodies.get(b.soap_body).is_some());
    assert_eq!(b.world.bodies.len(), 1);
    assert!(!b.fluids.coupling.entries.contains_key(&b.colliders[0]));
    assert!(b.fluids.coupling.entries.contains_key(&b.colliders[1]));
    assert!(b.fluids.liquid_world.boundaries().get(boundary_handle(cell.boundary_handle)).is_none());
    assert_eq!(b.fluids.liquid_world.boundaries().len(), 1);
}

#[test]
fn breaking_off_moves_the_collider_to_a_new_body() {
    let mut b = bar(2);
    let mut cell = b.cells.remove(0);
    let old_pose = *b.world.colliders.get(b.colliders[0]).unwrap().position();
    let other_pose = *b.world.colliders.get(b.colliders[1]).unwrap().position();
    detach_soap_cell(&mut cell, &mut b.world);
    assert!(!cell.attached);
    assert!(!cell.dissolved);
    assert_eq!(b.world.bodies.len(), 2);
    let collider = b.world.colliders.get(b.colliders[0]).expect("same collider handle");
    let parent = collider.parent().expect("has a body");
    assert_ne!(parent, b.soap_body);
    let new_body = b.world.bodies.get(parent).unwrap();
    assert!(new_body.is_dynamic());
    assert_eq!(*new_body.position(), old_pose);
    assert_eq!(new_body.linvel(), rapier2d::math::Vector::ZERO);
    assert_eq!(new_body.angvel(), 0.0);
    assert!(new_body.colliders().contains(&b.colliders[0]));
    assert_eq!(*b.world.colliders.get(b.colliders[1]).unwrap().position(), other_pose);
    assert_eq!(*collider.position_wrt_parent().unwrap(), rapier2d::math::Pose::IDENTITY);
    // The other cell stays on the soap body.
    assert_eq!(b.world.colliders.get(b.colliders[1]).unwrap().parent(), Some(b.soap_body));
    // The coupling with the fluid is untouched.
    assert!(b.fluids.coupling.entries.contains_key(&b.colliders[0]));
}

#[test]
fn breaking_off_a_cell_without_collider_changes_nothing() {
    let mut b = bar(1);
    let mut cell = b.cells.remove(0);
    b.world.colliders.remove(
        b.colliders[0],
        &mut b.world.islands,
        &mut b.world.bodies,
        &mut b.world.soft_bodies,
        true,
    );
    detach_soap_cell(&mut cell, &mut b.world);
    assert!(cell.attached);
    assert_eq!(b.world.bodies.len(), 1);
}

#[test]
fn dissolving_a_free_cell_removes_its_body_and_keeps_the_bar() {
    let mut b = bar(2);
    let mut cell = b.cells.remove(0);
    detach_soap_cell(&mut cell, &mut b.world);
    let own_body = b.world.colliders.get(b.colliders[0]).unwrap().parent().unwrap();
    dissolve_soap_cell(&mut cell, &mut b.world, &mut b.fluids);
    assert!(cell.dissolved);
    assert!(!cell.attached);
    assert!(b.world.bodies.get(own_body).is_none());
    assert!(b.world.colliders.get(b.colliders[0]).is_none());
    assert!(b.world.bodies.get(b.soap_body).is_some());
    assert!(b.world.colliders.get(b.colliders[1]).is_some());
    assert!(!b.fluids.coupling.entries.contains_key(&b.colliders[0]));
    assert!(b.fluids.liquid_world.boundaries().get(boundary_handle(cell.boundary_handle)).is_none());
}

#[test]
fn free_cells_shrink_at_the_fast_rate() {
    let mut b = bar(1);
    let mut cell = b.cells.remove(0);
    assert_eq!(shrink_rate(&cell), ShrinkRate::Attached);
    detach_soap_cell(&mut cell, &mut b.world);
    assert_eq!(shrink_rate(&cell), ShrinkRate::Free);
}

#[test]
fn a_worn_out_cell_dissolves() {
    let mut b = bar(1);
    let mut cell = b.cells.remove(0);
    let outcome = erode_soap_cell(&mut cell, true, &mut b.world, &mut b.fluids);
    assert_eq!(outcome, WetOutcome::Dissolved);
    assert!(cell.dissolved);
    assert!(b.world.colliders.get(b.colliders[0]).is_none());
}

#[test]
fn only_cells_on_the_bar_may_break_off() {
    let mut b = bar(2);
    let mut on_bar = b.cells.remove(0);
    let mut free = b.cells.remove(0);
    detach_soap_cell(&mut free, &mut b.world);
    assert_eq!(
        erode_soap_cell(&mut on_bar, false, &mut b.world, &mut b.fluids),
        WetOutcome::Reshape { may_break_off: true }
    );
    assert_eq!(
        erode_soap_cell(&mut free, false, &mut b.world, &mut b.fluids),
        WetOutcome::Reshape { may_break_off: false }
    );
    assert!(!on_bar.dissolved && !free.dissolved);
    assert!(b.world.colliders.get(b.colliders[0]).is_some());
}

fn plain_cell(id: u32, attached: bool, dissolved: bool) -> SoapCell<u32> {
    let mut cell = SoapCell::new((id, 0), (id as usize, 0), id);
    cell.attached = attached;
    cell.dissolved = dissolved;
    cell
}

#[test]
fn pruning_drops_dissolved_cells_in_order() {
    let mut cells = vec![
        plain_cell(0, true, true),
        plain_cell(1, true, false),
        plain_cell(2, false, true),
        plain_cell(3, false, false),
        plain_cell(4, true, false),
        plain_cell(5, true, true),
    ];
    remove_dissolved(&mut cells);
    let ids: Vec<u32> = cells.iter().map(|c| c.erosion).collect();
    assert_eq!(ids, vec![1, 3, 4]);
    remove_dissolved(&mut cells);
    assert_eq!(cells.len(), 3);
    let mut empty: Vec<SoapCell<u32>> = Vec::new();
    remove_dissolved(&mut empty);
    assert!(empty.is_empty());
}

fn key(speed: f32) -> Option<u32> {
    if speed.is_nan() { None } else { Some(speed.to_bits()) }
}

#[test]
fn report_counts_free_cells_and_finds_the_first_fastest() {
    let cells = vec![
        plain_cell(0, true, false),
        plain_cell(1, false, false),
        plain_cell(2, false, false),
        plain_cell(3, true, false),
        plain_cell(4, false, false),
        plain_cell(5, false, false),
    ];
    let keys = vec![key(9.0), key(0.5), key(2.0), key(100.0), key(2.0), key(1.5)];
    assert_eq!(detached_report(&cells, &keys), DetachedReport { detached_count: 4, fastest: Some(2) });
}

#[test]
fn report_without_free_cells_has_no_fastest() {
    let cells = vec![plain_cell(0, true, false), plain_cell(1, true, false)];
    let keys = vec![key(3.0), key(4.0)];
    assert_eq!(detached_report(&cells, &keys), DetachedReport { detached_count: 0, fastest: None });
    let none: Vec<SoapCell<u32>> = Vec::new();
    assert_eq!(detached_report(&none, &Vec::new()), DetachedReport { detached_count: 0, fastest: None });
}

#[test]
fn report_speeds_that_are_not_numbers_never_win_later() {
    let cells = vec![plain_cell(0, false, false), plain_cell(1, false, false), plain_cell(2, false, false)];
    // A first speed that is not a number stays the fastest.
    let keys = vec![key(f32::NAN), key(1.0), key(f32::INFINITY)];
    assert_eq!(detached_report(&cells, &keys).fastest, Some(0));
    // A later one is skipped.
    let keys = vec![key(1.0), key(f32::NAN), key(0.5)];
    assert_eq!(detached_report(&cells, &keys).fastest, Some(0));
    // Infinity beats every number.
    let keys = vec![key(0.0), key(f32::INFINITY), key(f32::MAX)];
    assert_eq!(detached_report(&cells, &keys).fastest, Some(1));
}

#[test]
fn speed_keys_order_as_the_speeds_do() {
    let speeds = [0.0f32, 1e-30, 0.25, 0.5, 1.0, 3.0, 1e30, f32::MAX, f32::INFINITY];
    for pair in speeds.windows(2) {
        assert!(key(pair[0]).unwrap() < key(pair[1]).unwrap());
    }
}

#[test]
fn frames_pour_water_every_fifth_and_report_every_twentieth() {
    assert_eq!(frame_plan(true, 0), FramePlan { spawn_particles: true, report: true });
    assert_eq!(frame_plan(true, 5), FramePlan { spawn_particles: true, report: false });
    assert_eq!(frame_plan(true, 7), FramePlan { spawn_particles: false, report: false });
    assert_eq!(frame_plan(true, 40), FramePlan { spawn_particles: true, report: true });
    assert_eq!(frame_plan(false, 40), FramePlan { spawn_particles: false, report: false });
    let spawns = (0..100).filter(|s| frame_plan(true, *s).spawn_particles).count();
    let reports = (0..100).filter(|s| frame_plan(true, *s).report).count();
    assert_eq!((spawns, reports), (20, 5));
}

#[test]
fn a_cell_is_wet_only_where_the_fluid_touches_it_and_acts_on_it() {
    let mut b = bar(1);
    let mut cell = b.cells.remove(0);
    // A fresh boundary has no sample points and no force record.
    assert!(!is_wet(&b.fluids, &cell));
    let handle = boundary_handle(cell.boundary_handle);
    {
        let boundary = b.fluids.liquid_world.boundaries_mut().get_mut(handle).unwrap();
        boundary.positions.push(salva2d::math::Vector::zeros());
    }
    // Sample points but still no force record.
    assert!(!is_wet(&b.fluids, &cell));
    {
        let boundary = b.fluids.liquid_world.boundaries_mut().get_mut(handle).unwrap();
        boundary.forces = Some(std::sync::RwLock::new(Vec::new()));
    }
    assert!(is_wet(&b.fluids, &cell));
    {
        let boundary = b.fluids.liquid_world.boundaries_mut().get_mut(handle).unwrap();
        boundary.positions.clear();
    }
    // A force record but no sample points.
    assert!(!is_wet(&b.fluids, &cell));
    dissolve_soap_cell(&mut cell, &mut b.world, &mut b.fluids);
    // A dissolved cell has no boundary any more.
    assert!(!is_wet(&b.fluids, &cell));
}

#[test]
fn dissolving_a_free_cell_keeps_other_bodies_and_their_colliders() {
    let mut world = PhysicsWorld::new();
    let mut fluids = FluidsPipeline::new(0.1, 2.0);
    let s = world.bodies.insert(RigidBodyBuilder::dynamic().build());
    let p = world.bodies.insert(RigidBodyBuilder::dynamic().build());
    let c1 = world.colliders.insert_with_parent(ColliderBuilder::cuboid(0.05, 0.05).build(), p, &mut world.bodies);
    let c2 = world.colliders.insert_with_parent(ColliderBuilder::cuboid(0.05, 0.05).build(), s, &mut world.bodies);
    let mut cell = new_soap_cell(&mut fluids, c1.into_raw_parts(), ());
    cell.attached = false;
    dissolve_soap_cell(&mut cell, &mut world, &mut fluids);
    assert!(cell.dissolved);
    assert!(world.bodies.get(p).is_none());
    assert!(world.colliders.get(c1).is_none());
    assert!(world.bodies.get(s).is_some());
    assert_eq!(world.colliders.get(c2).unwrap().parent(), Some(s));
    assert_eq!(world.bodies.len(), 1);
    assert_eq!(world.colliders.len(), 1);
    assert!(fluids.liquid_world.boundaries().get(boundary_handle(cell.boundary_handle)).is_none());
}

#[test]
fn a_collider_left_off_its_parents_list_stays_when_the_body_goes() {
    // A parent recorded before its body existed: the body never lists the collider.
    let mut world = PhysicsWorld::new();
    let mut fluids = FluidsPipeline::new(0.1, 2.0);
    let c = world.colliders.insert(ColliderBuilder::cuboid(0.05, 0.05).build());
    world.colliders.set_parent(c, Some(RigidBodyHandle::from_raw_parts(0, 0)), &mut world.bodies);
    let p = world.bodies.insert(RigidBodyBuilder::dynamic().build());
    assert_eq!(p, RigidBodyHandle::from_raw_parts(0, 0));
    let mut cell = new_soap_cell(&mut fluids, c.into_raw_parts(), ());
    cell.attached = false;
    dissolve_soap_cell(&mut cell, &mut world, &mut fluids);
    assert!(world.bodies.get(p).is_none());
    assert!(world.colliders.get(c).is_some());
}

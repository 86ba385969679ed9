//! Properties of the bar's cells that span several operations.
use vstd::prelude::*;

use crate::cell::{detach_effect, dissolve_effect, SoapCell};
use crate::outside::{
    fluid_boundaries, fluid_couplings, world_bodies, world_collider_poses, world_colliders, world_unit_offsets,
};
use crate::roster::{is_fastest_detached, without_dissolved, SpeedKey};

verus! {

/// A cell never goes back onto the bar, and a dissolved cell stays
/// dissolved: neither breaking a cell off nor dissolving it turns a free cell
/// into an attached one or a dissolved one into an intact one, and neither
/// moves the cell to another collider or boundary.
pub proof fn lemma_cells_never_reattach<E>(
    before: SoapCell<E>,
    after: SoapCell<E>,
    world_before: rapier2d::pipeline::PhysicsWorld,
    world_after: rapier2d::pipeline::PhysicsWorld,
    fluids_before: salva2d::integrations::rapier::FluidsPipeline,
    fluids_after: salva2d::integrations::rapier::FluidsPipeline,
)
    requires
        detach_effect(before, after, world_before, world_after) || dissolve_effect(
            before,
            after,
            world_before,
            world_after,
            fluids_before,
            fluids_after,
        ),
    ensures
        after.attached ==> before.attached,
        before.dissolved ==> after.dissolved,
        after.collider_handle == before.collider_handle,
        after.boundary_handle == before.boundary_handle,
{
}

/// A cell that breaks off and then dissolves takes the body it broke off on
/// along: the body added to the world when the cell broke off is gone once
/// the cell has dissolved, and so is the cell's collider, while the world has
/// again exactly the bodies it had before the cell broke off. (This holds for
/// a collider whose recorded parent, if any, was a body of the world.)
pub proof fn lemma_free_cell_takes_its_body_along<E>(
    on_bar: SoapCell<E>,
    broken_off: SoapCell<E>,
    gone: SoapCell<E>,
    world_0: rapier2d::pipeline::PhysicsWorld,
    world_1: rapier2d::pipeline::PhysicsWorld,
    world_2: rapier2d::pipeline::PhysicsWorld,
    fluids_1: salva2d::integrations::rapier::FluidsPipeline,
    fluids_2: salva2d::integrations::rapier::FluidsPipeline,
)
    requires
        world_colliders(world_0).contains_key(on_bar.collider_handle),
        world_colliders(world_0)[on_bar.collider_handle] matches Some(parent) ==> world_bodies(world_0).contains_key(parent),
        detach_effect(on_bar, broken_off, world_0, world_1),
        dissolve_effect(broken_off, gone, world_1, world_2, fluids_1, fluids_2),
    ensures
        world_colliders(world_1)[on_bar.collider_handle] matches Some(body) && {
            &&& !world_bodies(world_0).contains_key(body)
            &&& world_bodies(world_1).contains_key(body)
            &&& !world_bodies(world_2).contains_key(body)
        },
        !world_colliders(world_2).contains_key(on_bar.collider_handle),
        world_bodies(world_2) == world_bodies(world_0),
{
    let c = on_bar.collider_handle;
    let body = world_colliders(world_1)[c]->0;
    assert(world_colliders(world_0)[c] != Some(body));
    assert(world_bodies(world_2) =~= world_bodies(world_0));
}

/// Breaking a cell off leaves every other cell where it was: each other
/// collider keeps its parent (so a cell on the bar stays on the soap body),
/// its pose and its offset.
pub proof fn lemma_breaking_off_keeps_other_cells_in_place<E>(
    before: SoapCell<E>,
    after: SoapCell<E>,
    world_before: rapier2d::pipeline::PhysicsWorld,
    world_after: rapier2d::pipeline::PhysicsWorld,
    other: (u32, u32),
)
    requires
        detach_effect(before, after, world_before, world_after),
        other != before.collider_handle,
    ensures
        world_colliders(world_after).contains_key(other) == world_colliders(world_before).contains_key(other),
        world_colliders(world_before).contains_key(other) ==> world_colliders(world_after)[other]
            == world_colliders(world_before)[other],
        world_collider_poses(world_after).contains_key(other) == world_collider_poses(world_before).contains_key(other),
        world_collider_poses(world_before).contains_key(other) ==> world_collider_poses(world_after)[other]
            == world_collider_poses(world_before)[other],
        world_unit_offsets(world_after).contains(other) == world_unit_offsets(world_before).contains(other),
{
    if world_colliders(world_before).contains_key(before.collider_handle) {
        assert(world_collider_poses(world_after).remove(before.collider_handle).contains_key(other)
            == world_collider_poses(world_after).contains_key(other));
        assert(world_collider_poses(world_before).remove(before.collider_handle).contains_key(other)
            == world_collider_poses(world_before).contains_key(other));
        if world_collider_poses(world_before).contains_key(other) {
            assert(world_collider_poses(world_after).remove(before.collider_handle)[other]
                == world_collider_poses(world_after)[other]);
            assert(world_collider_poses(world_before).remove(before.collider_handle)[other]
                == world_collider_poses(world_before)[other]);
        }
        assert(world_unit_offsets(world_after).remove(before.collider_handle).contains(other)
            == world_unit_offsets(world_after).contains(other));
        assert(world_unit_offsets(world_before).remove(before.collider_handle).contains(other)
            == world_unit_offsets(world_before).contains(other));
    }
}

/// Cells that break off one after the other each get a body of their own:
/// the two bodies differ, neither was in the world before (so neither is the
/// soap body or any other body that was there), and the first cell's
/// collider still hangs from its body once the second has broken off.
pub proof fn lemma_free_cells_get_distinct_bodies<E>(
    first_before: SoapCell<E>,
    first_after: SoapCell<E>,
    second_before: SoapCell<E>,
    second_after: SoapCell<E>,
    world_0: rapier2d::pipeline::PhysicsWorld,
    world_1: rapier2d::pipeline::PhysicsWorld,
    world_2: rapier2d::pipeline::PhysicsWorld,
)
    requires
        world_colliders(world_0).contains_key(first_before.collider_handle),
        world_colliders(world_0).contains_key(second_before.collider_handle),
        first_before.collider_handle != second_before.collider_handle,
        detach_effect(first_before, first_after, world_0, world_1),
        detach_effect(second_before, second_after, world_1, world_2),
    ensures
        world_colliders(world_2)[first_before.collider_handle] matches Some(first_body)
            && world_colliders(world_2)[second_before.collider_handle] matches Some(second_body) && {
            &&& first_body != second_body
            &&& !world_bodies(world_0).contains_key(first_body)
            &&& !world_bodies(world_0).contains_key(second_body)
            &&& world_bodies(world_2).contains_key(first_body)
            &&& world_bodies(world_2).contains_key(second_body)
        },
{
    let c1 = first_before.collider_handle;
    let c2 = second_before.collider_handle;
    assert(world_colliders(world_1).contains_key(c2));
    let b1 = world_colliders(world_1)[c1]->0;
    assert(world_colliders(world_2)[c1] == Some(b1));
    assert(world_bodies(world_1).contains_key(b1));
}

/// Dissolving a cell cuts exactly its own ties with the fluid: its coupling
/// and its boundary are gone, and every other coupling and boundary stays as
/// it was.
pub proof fn lemma_dissolving_cuts_only_the_cells_fluid_ties<E>(
    before: SoapCell<E>,
    after: SoapCell<E>,
    world_before: rapier2d::pipeline::PhysicsWorld,
    world_after: rapier2d::pipeline::PhysicsWorld,
    fluids_before: salva2d::integrations::rapier::FluidsPipeline,
    fluids_after: salva2d::integrations::rapier::FluidsPipeline,
    other_collider: (u32, u32),
    other_boundary: (usize, u64),
)
    requires
        dissolve_effect(before, after, world_before, world_after, fluids_before, fluids_after),
    ensures
        after.dissolved,
        !fluid_couplings(fluids_after).contains_key(before.collider_handle),
        !fluid_boundaries(fluids_after).contains_key(before.boundary_handle),
        other_collider != before.collider_handle ==> {
            &&& fluid_couplings(fluids_after).contains_key(other_collider)
                == fluid_couplings(fluids_before).contains_key(other_collider)
            &&& fluid_couplings(fluids_before).contains_key(other_collider) ==> fluid_couplings(fluids_after)[other_collider]
                == fluid_couplings(fluids_before)[other_collider]
        },
        other_boundary != before.boundary_handle ==> {
            &&& fluid_boundaries(fluids_after).contains_key(other_boundary)
                == fluid_boundaries(fluids_before).contains_key(other_boundary)
            &&& fluid_boundaries(fluids_before).contains_key(other_boundary) ==> fluid_boundaries(fluids_after)[other_boundary]
                == fluid_boundaries(fluids_before)[other_boundary]
        },
{
}

/// Dissolving a cell that is still on the bar takes out its own collider and
/// nothing else: every body stays (the shared soap body among them) and every
/// other collider stays on the body it hung from.
pub proof fn lemma_dissolving_an_attached_cell_keeps_the_bar<E>(
    before: SoapCell<E>,
    after: SoapCell<E>,
    world_before: rapier2d::pipeline::PhysicsWorld,
    world_after: rapier2d::pipeline::PhysicsWorld,
    fluids_before: salva2d::integrations::rapier::FluidsPipeline,
    fluids_after: salva2d::integrations::rapier::FluidsPipeline,
    other_collider: (u32, u32),
)
    requires
        dissolve_effect(before, after, world_before, world_after, fluids_before, fluids_after),
        before.attached,
    ensures
        !world_colliders(world_after).contains_key(before.collider_handle),
        world_bodies(world_after) == world_bodies(world_before),
        other_collider != before.collider_handle ==> {
            &&& world_colliders(world_after).contains_key(other_collider)
                == world_colliders(world_before).contains_key(other_collider)
            &&& world_colliders(world_before).contains_key(other_collider) ==> world_colliders(world_after)[other_collider]
                == world_colliders(world_before)[other_collider]
        },
{
}

/// The reported fastest free cell is at least as fast as every free cell of
/// the list, the last one included, whenever the first free cell's speed is a
/// number; where the first free cell's speed is not a number, it is that
/// first free cell.
pub proof fn lemma_fastest_beats_every_free_cell<E>(cells: Seq<SoapCell<E>>, speed_keys: Seq<SpeedKey>, i: int)
    requires
        speed_keys.len() == cells.len(),
        is_fastest_detached(cells, speed_keys, i),
    ensures
        0 <= i < cells.len(),
        !cells[i].attached,
        forall|k: int|
            0 <= k < cells.len() && !cells[k].attached && speed_keys[k] is Some ==> (speed_keys[i] is Some
                && speed_keys[k]->0 <= speed_keys[i]->0) || (speed_keys[i] is None && forall|j: int|
                0 <= j < i ==> cells[j].attached),
        forall|k: int| 0 <= k < i && !cells[k].attached && speed_keys[k] is Some && speed_keys[i] is Some
            ==> speed_keys[k]->0 < speed_keys[i]->0,
{
    let first = choose|first: int|
        #![trigger cells[first]]
        0 <= first <= i && !cells[first].attached && (forall|k: int| 0 <= k < first ==> cells[k].attached) && if speed_keys[first] is None {
            i == first
        } else {
            &&& speed_keys[i] is Some
            &&& forall|k: int|
                0 <= k < cells.len() && !cells[k].attached && speed_keys[k] is Some ==> speed_keys[k]->0
                    <= speed_keys[i]->0
            &&& forall|k: int|
                0 <= k < i && !cells[k].attached && speed_keys[k] is Some ==> speed_keys[k]->0
                    < speed_keys[i]->0
        };
}

/// There is only one fastest free cell: two positions that both fit the
/// description are the same.
pub proof fn lemma_fastest_is_unique<E>(cells: Seq<SoapCell<E>>, speed_keys: Seq<SpeedKey>, i: int, j: int)
    requires
        speed_keys.len() == cells.len(),
        is_fastest_detached(cells, speed_keys, i),
        is_fastest_detached(cells, speed_keys, j),
    ensures
        i == j,
{
    lemma_fastest_beats_every_free_cell(cells, speed_keys, i);
    lemma_fastest_beats_every_free_cell(cells, speed_keys, j);
    if i != j {
        // Both start from the same first free cell.
        let fi = choose|first: int|
            #![trigger cells[first]]
            0 <= first <= i && !cells[first].attached && (forall|k: int| 0 <= k < first ==> cells[k].attached);
        let fj = choose|first: int|
            #![trigger cells[first]]
            0 <= first <= j && !cells[first].attached && (forall|k: int| 0 <= k < first ==> cells[k].attached);
        assert(fi == fj) by {
            if fi < fj {
                assert(cells[fi].attached);
            } else if fj < fi {
                assert(cells[fj].attached);
            }
        }
    }
}

/// Pruning leaves no dissolved cell behind, and pruning a pruned list
/// changes nothing.
pub proof fn lemma_pruned_cells_are_intact<E>(cells: Seq<SoapCell<E>>)
    ensures
        forall|i: int| 0 <= i < without_dissolved(cells).len() ==> !(#[trigger] without_dissolved(cells)[i]).dissolved,
        without_dissolved(without_dissolved(cells)) == without_dissolved(cells),
    decreases cells.len(),
{
    reveal(Seq::filter);
    if cells.len() > 0 {
        lemma_pruned_cells_are_intact(cells.drop_last());
        let rest = without_dissolved(cells.drop_last());
        if !cells.last().dissolved {
            assert(rest.push(cells.last()).drop_last() =~= rest);
        }
    }
}

} // verus!

//! The list of the bar's cells: pruning the dissolved ones, and the periodic
//! report on the cells that have broken off.
use vstd::prelude::*;

use crate::cell::SoapCell;

verus! {

/// The cells of `cells` that are not dissolved, in their order.
pub open spec fn without_dissolved<E>(cells: Seq<SoapCell<E>>) -> Seq<SoapCell<E>> {
    cells.filter(|cell: SoapCell<E>| !cell.dissolved)
}

/// The number of cells of `cells` that have broken off the bar.
pub open spec fn detached_count<E>(cells: Seq<SoapCell<E>>) -> nat {
    cells.filter(|cell: SoapCell<E>| !cell.attached).len()
}

proof fn lemma_without_dissolved_push<E>(cells: Seq<SoapCell<E>>, cell: SoapCell<E>)
    ensures
        without_dissolved(cells.push(cell)) == (if cell.dissolved {
            without_dissolved(cells)
        } else {
            without_dissolved(cells).push(cell)
        }),
{
    reveal(Seq::filter);
    assert(cells.push(cell).drop_last() =~= cells);
}

proof fn lemma_detached_count_push<E>(cells: Seq<SoapCell<E>>, cell: SoapCell<E>)
    ensures
        detached_count(cells.push(cell)) == detached_count(cells) + (if cell.attached { 0nat } else { 1nat }),
{
    reveal(Seq::filter);
    assert(cells.push(cell).drop_last() =~= cells);
}

/// Drops the dissolved cells from the list, keeping the others in order.
pub fn remove_dissolved<E>(cells: &mut Vec<SoapCell<E>>)
    ensures
        final(cells)@ == without_dissolved(old(cells)@),
{
    let ghost original = cells@;
    let length: usize = cells.len();
    assert(original.len() == length);
    let mut kept: usize = 0;
    let mut seen: usize = 0;
    while kept < cells.len()
        invariant
            kept <= cells.len(),
            seen <= original.len(),
            original.len() <= usize::MAX,
            cells@.len() - kept == original.len() - seen,
            cells@.take(kept as int) == without_dissolved(original.take(seen as int)),
            cells@.skip(kept as int) == original.skip(seen as int),
        decreases cells.len() - kept,
    {
        proof {
            assert(cells@[kept as int] == cells@.skip(kept as int)[0]);
            assert(original.take(seen + 1) =~= original.take(seen as int).push(original[seen as int]));
            assert(original[seen as int] == original.skip(seen as int)[0]);
            lemma_without_dissolved_push(original.take(seen as int), original[seen as int]);
        }
        if cells[kept].dissolved {
            let ghost before = cells@;
            let _ = cells.remove(kept);
            proof {
                assert(cells@.take(kept as int) =~= before.take(kept as int));
                assert(cells@.skip(kept as int) =~= before.skip(kept as int).skip(1));
                assert(original.skip(seen + 1) =~= original.skip(seen as int).skip(1));
            }
        } else {
            proof {
                assert(cells@.take(kept + 1) =~= cells@.take(kept as int).push(cells@[kept as int]));
                assert(cells@.skip(kept + 1) =~= cells@.skip(kept as int).skip(1));
                assert(original.skip(seen + 1) =~= original.skip(seen as int).skip(1));
            }
            kept = kept + 1;
        }
        seen = seen + 1;
    }
    proof {
        assert(cells@.take(kept as int) =~= cells@);
        assert(original.skip(seen as int).len() == 0);
        assert(original.take(seen as int) =~= original);
    }
}

/// Where a free cell's speed stands in the order of speeds: `Some` of the
/// bits of a speed that is a number (a speed is never negative, and the bits
/// of non-negative numbers, infinity included, are ordered as the numbers
/// are), `None` for a speed that is not a number, which is neither faster nor
/// slower than any other.
pub type SpeedKey = Option<u32>;

/// The summary printed now and then: how many cells have broken off, and the
/// position in the list of the fastest of them.
#[derive(PartialEq, Eq, Structural, Clone, Copy, Debug)]
pub struct DetachedReport {
    pub detached_count: usize,
    pub fastest: Option<usize>,
}

/// Holds when `i` is the position of the fastest free cell among `cells`,
/// scanning them in order and taking a cell only when it is strictly faster
/// than the fastest so far: the first free cell to begin with, then, where the
/// first one's speed is a number, the first free cell of greatest speed; where
/// it is not a number, no later cell is faster and the first one stays.
pub open spec fn is_fastest_detached<E>(cells: Seq<SoapCell<E>>, speed_keys: Seq<SpeedKey>, i: int) -> bool {
    &&& 0 <= i < cells.len()
    &&& !cells[i].attached
    &&& exists|first: int|
        #![trigger cells[first]]
        0 <= first <= i && !cells[first].attached && (forall|k: int| 0 <= k < first ==> cells[k].attached) && if speed_keys[first] is None {
            i == first
        } else {
            &&& speed_keys[i] is Some
            &&& forall|k: int|
                0 <= k < cells.len() && !cells[k].attached && speed_keys[k] is Some ==> speed_keys[k]->0
                    <= speed_keys[i]->0
            &&& forall|k: int|
                0 <= k < i && !cells[k].attached && speed_keys[k] is Some ==> speed_keys[k]->0
                    < speed_keys[i]->0
        }
}

/// Counts the free cells and finds the fastest of them (see
/// [`is_fastest_detached`]); `speed_keys[i]` is where the speed of
/// `cells[i]` stands (it matters only for free cells).
pub fn detached_report<E>(cells: &Vec<SoapCell<E>>, speed_keys: &Vec<SpeedKey>) -> (report: DetachedReport)
    requires
        speed_keys.len() == cells.len(),
    ensures
        report.detached_count == detached_count(cells@),
        report.fastest is None <==> (forall|k: int| 0 <= k < cells.len() ==> cells[k].attached),
        report.fastest matches Some(i) ==> is_fastest_detached(cells@, speed_keys@, i as int),
        report.fastest matches Some(i) ==> {
            &&& i < cells.len()
            &&& !cells[i as int].attached
            &&& forall|k: int|
                0 <= k < cells.len() && !cells[k].attached && speed_keys[k] is Some ==> (speed_keys[i as int] is Some
                    && speed_keys[k]->0 <= speed_keys[i as int]->0) || (speed_keys[i as int] is None && forall|j: int|
                    0 <= j < i ==> cells[j].attached)
            &&& forall|k: int|
                0 <= k < i && !cells[k].attached && speed_keys[k] is Some && speed_keys[i as int] is Some
                    ==> speed_keys[k]->0 < speed_keys[i as int]->0
        },
{
    let mut count: usize = 0;
    let mut fastest: Option<usize> = None;
    let ghost mut first: int = 0;
    let mut i: usize = 0;
    while i < cells.len()
        invariant
            i <= cells.len(),
            speed_keys.len() == cells.len(),
            count == detached_count(cells@.take(i as int)),
            count <= i,
            fastest is None <==> (forall|k: int| 0 <= k < i ==> cells[k].attached),
            fastest matches Some(best) ==> {
                &&& best < i
                &&& !cells[best as int].attached
                &&& 0 <= first <= best
                &&& !cells[first].attached
                &&& (forall|k: int| 0 <= k < first ==> cells[k].attached)
                &&& if speed_keys[first] is None {
                    best == first
                } else {
                    &&& speed_keys[best as int] is Some
                    &&& forall|k: int|
                        0 <= k < i && !cells[k].attached && speed_keys[k] is Some
                            ==> speed_keys[k]->0 <= speed_keys[best as int]->0
                    &&& forall|k: int|
                        0 <= k < best && !cells[k].attached && speed_keys[k] is Some
                            ==> speed_keys[k]->0 < speed_keys[best as int]->0
                }
            },
        decreases cells.len() - i,
    {
        proof {
            assert(cells@.take(i + 1) =~= cells@.take(i as int).push(cells@[i as int]));
            lemma_detached_count_push(cells@.take(i as int), cells@[i as int]);
        }
        if !cells[i].attached {
            count = count + 1;
            let replace = match fastest {
                None => true,
                Some(best) => match (speed_keys[i], speed_keys[best]) {
                    (Some(speed), Some(best_speed)) => speed > best_speed,
                    _ => false,
                },
            };
            if replace {
                proof {
                    if fastest is None {
                        first = i as int;
                    }
                }
                fastest = Some(i);
            }
        }
        i = i + 1;
    }
    proof {
        assert(cells@.take(i as int) =~= cells@);
        if let Some(best) = fastest {
            assert(!cells@[first].attached);
            assert(is_fastest_detached(cells@, speed_keys@, best as int));
            crate::laws::lemma_fastest_beats_every_free_cell(cells@, speed_keys@, best as int);
        }
    }
    DetachedReport { detached_count: count, fastest }
}

} // verus!

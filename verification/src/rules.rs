//! The Game of Life update rule for a single cell.

use vstd::prelude::*;

verus! {

/// What a cell becomes in the next generation, given its current liveness and
/// the number of live cells among its eight neighbors.
pub open spec fn next_state_spec(current: bool, live_neighbors: int) -> bool {
    if current {
        live_neighbors == 2 || live_neighbors == 3
    } else {
        live_neighbors == 3
    }
}

/// Applies the standard rule: a live cell survives with two or three live
/// neighbors and dies otherwise; a dead cell becomes alive with exactly three.
pub fn next_state(current: bool, live_neighbors: u8) -> (alive: bool)
    ensures
        alive == next_state_spec(current, live_neighbors as int),
{
    if current {
        live_neighbors == 2 || live_neighbors == 3
    } else {
        live_neighbors == 3
    }
}

/// Law: a live cell with fewer than two live neighbors dies (underpopulation),
/// with two or three it survives, with more than three it dies
/// (overpopulation); a dead cell becomes alive exactly when it has three live
/// neighbors (reproduction), and stays dead on every other count.
pub proof fn lemma_rule_correctness(current: bool, live_neighbors: int)
    requires
        0 <= live_neighbors <= 8,
    ensures
        current && live_neighbors < 2 ==> !next_state_spec(current, live_neighbors),
        current && (live_neighbors == 2 || live_neighbors == 3) ==> next_state_spec(
            current,
            live_neighbors,
        ),
        current && live_neighbors > 3 ==> !next_state_spec(current, live_neighbors),
        !current ==> (next_state_spec(current, live_neighbors) <==> live_neighbors == 3),
{
}

} // verus!

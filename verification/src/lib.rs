//! Conway's Game of Life on a fixed-size square grid with toroidal
//! (wraparound) edges: the update rule, neighbor counting over the wrapped
//! neighborhood, clearing, and randomized seeding.

pub mod grid;
pub mod rules;

use vstd::prelude::*;

verus! {

} // verus!

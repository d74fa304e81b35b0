use vstd::prelude::*;
use vstd::arithmetic::div_mod::lemma_fundamental_div_mod_converse;

use crate::procgen::{pack, pack_spec, random_bool, xxhash64_empty, BOOL_SCALE};

verus! {

/// The cells of the map run from -1 to `MAP_END - 1` along both axes.
pub const MAP_END: i32 = 100;

/// The number of cells along one side of the map.
pub const MAP_SIDE: usize = 101;

/// Out of ten thousand, how many cells (less one) get the second kind of tile.
pub const TILE_WEIGHT: usize = 100;

/// The cell at position `i` of the list that `make_cells` builds: column by column.
pub open spec fn cell_at(i: int) -> (i32, i32) {
    ((i / MAP_SIDE as int - 1) as i32, (i % MAP_SIDE as int - 1) as i32)
}

/// All cells of the map, as (x, z) pairs, one column of x after the other.
pub fn make_cells() -> (r: Vec<(i32, i32)>)
    ensures
        r@.len() == MAP_SIDE * MAP_SIDE,
        forall|i: int| 0 <= i < r@.len() ==> #[trigger] r@[i] == cell_at(i),
{
    let mut v: Vec<(i32, i32)> = Vec::with_capacity(MAP_SIDE * MAP_SIDE);
    let mut x: i32 = -1;
    while x < MAP_END
        invariant
            -1 <= x <= MAP_END,
            v@.len() == (x + 1) * MAP_SIDE,
            forall|i: int| 0 <= i < v@.len() ==> #[trigger] v@[i] == cell_at(i),
        decreases MAP_END - x,
    {
        let mut z: i32 = -1;
        while z < MAP_END
            invariant
                -1 <= x < MAP_END,
                -1 <= z <= MAP_END,
                v@.len() == (x + 1) * MAP_SIDE + (z + 1),
                forall|i: int| 0 <= i < v@.len() ==> #[trigger] v@[i] == cell_at(i),
            decreases MAP_END - z,
        {
            proof {
                lemma_fundamental_div_mod_converse(
                    v@.len() as int,
                    MAP_SIDE as int,
                    x + 1,
                    z + 1,
                );
            }
            v.push((x, z));
            z = z + 1;
        }
        x = x + 1;
    }
    v
}

/// The cells of the map that are still to be drawn.
pub struct Coords {
    cells: Vec<(i32, i32)>,
}

impl View for Coords {
    type V = Seq<(i32, i32)>;

    closed spec fn view(&self) -> Seq<(i32, i32)> {
        self.cells@
    }
}

impl Coords {
    /// Every cell of the map, waiting to be drawn.
    pub fn new() -> (r: Coords)
        ensures
            r@.len() == MAP_SIDE * MAP_SIDE,
            forall|i: int| 0 <= i < r@.len() ==> #[trigger] r@[i] == cell_at(i),
    {
        Coords { cells: make_cells() }
    }

    /// Hands out the cells still to be drawn and leaves none.
    pub fn take_cells(&mut self) -> (r: Vec<(i32, i32)>)
        ensures
            r@ == old(self)@,
            final(self)@.len() == 0,
    {
        let mut taken: Vec<(i32, i32)> = Vec::new();
        std::mem::swap(&mut taken, &mut self.cells);
        taken
    }
}

/// The kind of tile at cell (x, z), the same for the same cell in every run.
pub fn tile_item(x: i32, z: i32) -> (r: i64)
    ensures
        r == (if xxhash64_empty(pack_spec(x, z)) as int % BOOL_SCALE as int
            <= TILE_WEIGHT as int {
            1i64
        } else {
            0i64
        }),
{
    let seed = pack(x, z);
    if random_bool(seed, TILE_WEIGHT) {
        1
    } else {
        0
    }
}

} // verus!

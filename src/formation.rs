use vstd::prelude::*;

verus! {

/// The formation grid is `FORMATION_WIDTH` slots wide and as many deep.
pub const FORMATION_WIDTH: usize = 4;

/// The number of slots in the formation grid.
pub const FORMATION_SLOTS: usize = 16;

/// Column and row of a slot index, the grid being filled row by row.
pub fn index_to_x_y(index: usize) -> (r: (usize, usize))
    ensures
        r.0 == index % FORMATION_WIDTH,
        r.1 == index / FORMATION_WIDTH,
{
    let y = index / FORMATION_WIDTH;
    let x = index - y * FORMATION_WIDTH;
    (x, y)
}

/// The slot indices of one row, left to right.
pub fn row_to_index(row: usize) -> (r: Vec<usize>)
    requires
        row * FORMATION_WIDTH + FORMATION_WIDTH <= usize::MAX,
    ensures
        r@.len() == FORMATION_WIDTH,
        forall|i: int| 0 <= i < FORMATION_WIDTH ==> #[trigger] r@[i] == row * FORMATION_WIDTH + i,
{
    let start = row * FORMATION_WIDTH;
    let end = start + FORMATION_WIDTH;
    let mut v: Vec<usize> = Vec::new();
    let mut i: usize = start;
    while i < end
        invariant
            start == row * FORMATION_WIDTH,
            end == start + FORMATION_WIDTH,
            start <= i <= end,
            v@.len() == i - start,
            forall|j: int| 0 <= j < v@.len() ==> #[trigger] v@[j] == start + j,
        decreases end - i,
    {
        v.push(i);
        i = i + 1;
    }
    v
}

/// The number of slots of the grid that lie in column `col`.
pub open spec fn col_len(col: usize) -> int {
    if col < FORMATION_SLOTS {
        (FORMATION_SLOTS - col + FORMATION_WIDTH - 1) / FORMATION_WIDTH as int
    } else {
        0
    }
}

/// The slot indices of one column, top to bottom.
pub fn col_to_index(col: usize) -> (r: Vec<usize>)
    ensures
        r@.len() == col_len(col),
        forall|i: int| 0 <= i < r@.len() ==> #[trigger] r@[i] == col + i * FORMATION_WIDTH,
{
    let mut v: Vec<usize> = Vec::new();
    if col >= FORMATION_SLOTS {
        return v;
    }
    let mut i: usize = col;
    while i < FORMATION_SLOTS
        invariant
            col < FORMATION_SLOTS,
            col <= i < FORMATION_SLOTS + FORMATION_WIDTH,
            (i - col) % FORMATION_WIDTH as int == 0,
            v@.len() == (i - col) / FORMATION_WIDTH as int,
            forall|j: int| 0 <= j < v@.len() ==> #[trigger] v@[j] == col + j * FORMATION_WIDTH,
        decreases FORMATION_SLOTS + FORMATION_WIDTH - i,
    {
        v.push(i);
        i = i + FORMATION_WIDTH;
    }
    v
}

/// True when bit `i` of `v` is set.
pub open spec fn bit_set(v: u16, i: u16) -> bool {
    (v >> i) & 1 == 1
}

/// The slots of the grid that hold a unit, one bit per slot.
pub struct Formation(pub u16);

impl Formation {
    /// An empty formation.
    pub fn new() -> (r: Formation)
        ensures
            r.0 == 0,
    {
        Formation(0)
    }

    /// Sets (or clears) the bit of slot `index`, leaving the others as they were.
    pub fn set_bit(&mut self, index: u16, value: bool)
        requires
            index < 16,
        ensures
            bit_set(final(self).0, index) == value,
            forall|i: u16|
                i < 16 && i != index ==> bit_set(#[trigger] final(self).0, i) == bit_set(
                    old(self).0,
                    i,
                ),
            value ==> final(self).0 == old(self).0 | (1u16 << index),
            !value ==> final(self).0 == old(self).0 & !(1u16 << index),
    {
        let old_bits = self.0;
        let mask: u16 = 1u16 << index;
        let new_bits: u16 = if value {
            old_bits | mask
        } else {
            old_bits & !mask
        };
        assert(bit_set(new_bits, index) == value) by (bit_vector)
            requires
                index < 16,
                mask == 1u16 << index,
                value ==> new_bits == old_bits | mask,
                !value ==> new_bits == old_bits & !mask,
        ;
        assert forall|i: u16| i < 16 && i != index implies bit_set(new_bits, i) == bit_set(
            old_bits,
            i,
        ) by {
            assert(bit_set(new_bits, i) == bit_set(old_bits, i)) by (bit_vector)
                requires
                    index < 16,
                    i < 16,
                    i != index,
                    mask == 1u16 << index,
                    value ==> new_bits == old_bits | mask,
                    !value ==> new_bits == old_bits & !mask,
            ;
        }
        self.0 = new_bits;
    }
}

/// Tag of a formation unit that the player is dragging on the formation panel.
#[derive(Debug, Clone, Copy, PartialEq, Eq, Structural)]
pub struct FormationUnitSelected;

/// Tag of a formation unit that was dropped on a new slot this frame.
#[derive(Debug, Clone, Copy, PartialEq, Eq, Structural)]
pub struct FormationUnitMoved;

/// The slot of a unit in the formation grid.
#[derive(Debug)]
pub struct FormationPos(pub u16);

impl FormationPos {
    pub fn new(index: u16) -> (r: FormationPos)
        ensures
            r.0 == index,
    {
        FormationPos(index)
    }
}

} // verus!

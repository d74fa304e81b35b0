use vstd::prelude::*;

use crate::formation::{index_to_x_y, FORMATION_WIDTH};

verus! {

/// How far apart, in world units, neighbouring formation slots stand.
pub const OFFSET_MUL: i64 = 2;

/// Tag of a unit that the player has selected.
#[derive(Debug, Clone, Copy, PartialEq, Eq, Structural)]
pub struct Selected;

/// The player a unit belongs to.
#[derive(Debug, Clone, Copy, PartialEq, Eq, Structural)]
pub struct PlayerId(u8);

impl View for PlayerId {
    type V = u8;

    closed spec fn view(&self) -> u8 {
        self.0
    }
}

impl PlayerId {
    pub fn new(id: u8) -> (r: PlayerId)
        ensures
            r@ == id,
    {
        PlayerId(id)
    }

    pub fn id(&self) -> (r: u8)
        ensures
            r == self@,
    {
        self.0
    }
}

/// The slot that a group's formation is laid out from, and which unit gives its heading.
///
/// `heading` is the position, in the group, of the unit whose way to the destination
/// turns the formation; `None` leaves the formation unturned.
#[derive(Debug, Clone, Copy, PartialEq, Eq, Structural)]
pub struct FormationAnchor {
    pub x: usize,
    pub y: usize,
    pub heading: Option<usize>,
}

/// The anchor before any unit is seen.
pub open spec fn anchor_start() -> FormationAnchor {
    FormationAnchor { x: 0, y: usize::MAX, heading: None }
}

/// One unit, at position `i` of the group and in slot `slot`, seen after `prev`.
///
/// A unit further right than every one before it takes the anchor over; a unit above
/// the anchor's row then lifts the row to its own.
pub open spec fn anchor_step(prev: FormationAnchor, i: int, slot: u16) -> FormationAnchor {
    let x = (slot as int % FORMATION_WIDTH as int) as usize;
    let y = (slot as int / FORMATION_WIDTH as int) as usize;
    let moved = if x > prev.x {
        FormationAnchor { x, y, heading: Some(i as usize) }
    } else {
        prev
    };
    if y < moved.y {
        FormationAnchor { y, heading: Some(i as usize), ..moved }
    } else {
        moved
    }
}

/// The anchor of a group whose units hold the slots `slots`, in that order.
pub open spec fn anchor_of(slots: Seq<u16>) -> FormationAnchor
    decreases slots.len(),
{
    if slots.len() == 0 {
        anchor_start()
    } else {
        anchor_step(anchor_of(slots.drop_last()), slots.len() - 1, slots.last())
    }
}

/// Facts on the anchor of a non-empty group: its column is the rightmost column of the
/// group, and it lies inside the grid that `u16` slots reach.
pub proof fn lemma_anchor_bounds(slots: Seq<u16>)
    ensures
        anchor_of(slots).x < FORMATION_WIDTH,
        forall|j: int|
            0 <= j < slots.len() ==> #[trigger] (slots[j] as int % FORMATION_WIDTH as int)
                <= anchor_of(slots).x,
        slots.len() > 0 ==> anchor_of(slots).y <= u16::MAX as int / FORMATION_WIDTH as int,
        anchor_of(slots).heading matches Some(h) ==> h < slots.len(),
    decreases slots.len(),
{
    if slots.len() > 0 {
        let prefix = slots.drop_last();
        lemma_anchor_bounds(prefix);
        assert forall|j: int| 0 <= j < slots.len() implies #[trigger] (slots[j] as int
            % FORMATION_WIDTH as int) <= anchor_of(slots).x by {
            if j < slots.len() - 1 {
                assert(slots[j] == prefix[j]);
            }
        }
    }
}

/// The anchor of a group whose units hold the slots `slots`, in that order.
pub fn formation_anchor(slots: &Vec<u16>) -> (r: FormationAnchor)
    ensures
        r == anchor_of(slots@),
        r.x < FORMATION_WIDTH,
        forall|j: int|
            0 <= j < slots@.len() ==> #[trigger] (slots@[j] as int % FORMATION_WIDTH as int)
                <= r.x,
        slots@.len() > 0 ==> r.y <= u16::MAX as int / FORMATION_WIDTH as int,
        r.heading matches Some(h) ==> h < slots@.len(),
{
    let mut anchor = FormationAnchor { x: 0, y: usize::MAX, heading: None };
    let mut i: usize = 0;
    while i < slots.len()
        invariant
            i <= slots@.len(),
            anchor == anchor_of(slots@.subrange(0, i as int)),
        decreases slots@.len() - i,
    {
        let (x, y) = index_to_x_y(slots[i] as usize);
        if x > anchor.x {
            anchor = FormationAnchor { x, y, heading: Some(i) };
        }
        if y < anchor.y {
            anchor = FormationAnchor { x: anchor.x, y, heading: Some(i) };
        }
        assert(slots@.subrange(0, i + 1).drop_last() == slots@.subrange(0, i as int));
        i = i + 1;
    }
    assert(slots@.subrange(0, slots@.len() as int) == slots@);
    proof {
        lemma_anchor_bounds(slots@);
    }
    anchor
}

/// Where, relative to the anchor and before turning, the unit in slot `slot` stands.
pub open spec fn slot_offset_spec(slot: u16, anchor: FormationAnchor) -> (int, int) {
    (
        (slot as int % FORMATION_WIDTH as int - anchor.x) * OFFSET_MUL,
        (slot as int / FORMATION_WIDTH as int - anchor.y) * OFFSET_MUL,
    )
}

/// The offset, in world units, of the unit in slot `slot` from the anchor's unit.
pub fn slot_offset(slot: u16, anchor: &FormationAnchor) -> (r: (i64, i64))
    requires
        anchor.x <= u16::MAX,
        anchor.y <= u16::MAX,
    ensures
        (r.0 as int, r.1 as int) == slot_offset_spec(slot, *anchor),
{
    let (x, y) = index_to_x_y(slot as usize);
    let dx: i64 = (x as i64 - anchor.x as i64) * OFFSET_MUL;
    let dy: i64 = (y as i64 - anchor.y as i64) * OFFSET_MUL;
    (dx, dy)
}

} // verus!

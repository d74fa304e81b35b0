use vstd::prelude::*;

use crate::input::{Keys, KEY_DOWN, KEY_LEFT, KEY_RIGHT, KEY_UP};

verus! {

/// The state of a selection drag: no drag, or one that started at a point.
#[derive(Debug, Clone, Copy, PartialEq, Eq, Structural)]
pub enum Drag<P> {
    Empty,
    Start(P),
}

/// What the selection box does after one frame of the drag.
#[derive(Debug, Clone, Copy, PartialEq, Eq, Structural)]
pub enum DragAction<P> {
    /// The button was let go with no drag under way: hide the box.
    Hide,
    /// The button was let go: select what lies between the two points, then hide the box.
    Select { start: P, end: P },
    /// A drag begins at this point: put the box there.
    Begin(P),
    /// The drag goes on: stretch the box between the two points.
    Resize { start: P, end: P },
}

impl<P: Copy> Drag<P> {
    pub fn set_start(&mut self, pos: P)
        ensures
            *final(self) == Drag::Start(pos),
    {
        *self = Drag::Start(pos);
    }

    pub fn clear(&mut self)
        ensures
            *final(self) == Drag::<P>::Empty,
    {
        *self = Drag::Empty;
    }

    /// One frame of the drag, with the button held (`pressed`) or not and the cursor at
    /// `pos`. Letting go ends the drag; holding starts one or carries it on.
    pub fn step(&mut self, pressed: bool, pos: P) -> (r: DragAction<P>)
        ensures
            !pressed ==> *final(self) == Drag::<P>::Empty,
            !pressed ==> r == match *old(self) {
                Drag::Empty => DragAction::Hide,
                Drag::Start(start) => DragAction::Select { start, end: pos },
            },
            pressed ==> *final(self) == match *old(self) {
                Drag::Empty => Drag::Start(pos),
                Drag::Start(start) => Drag::Start(start),
            },
            pressed ==> r == match *old(self) {
                Drag::Empty => DragAction::Begin(pos),
                Drag::Start(start) => DragAction::Resize { start, end: pos },
            },
    {
        if !pressed {
            let action = match self {
                Drag::Empty => DragAction::Hide,
                Drag::Start(start) => DragAction::Select { start: *start, end: pos },
            };
            self.clear();
            return action;
        }
        match self {
            Drag::Empty => {
                self.set_start(pos);
                DragAction::Begin(pos)
            },
            Drag::Start(start) => DragAction::Resize { start: *start, end: pos },
        }
    }
}

/// True when the key `key` is held in `keys`.
pub open spec fn held(keys: Keys, key: u32) -> bool {
    keys.bits & key == key
}

/// One step of a sign: 1 when only `plus` holds, -1 when only `minus` holds, else 0.
pub open spec fn axis(plus: bool, minus: bool) -> int {
    (if plus {
        1int
    } else {
        0int
    }) - (if minus {
        1int
    } else {
        0int
    })
}

/// The way the held keys move the camera, along x and along z, each -1, 0 or 1; `None`
/// when no key is held, and the camera then stays put.
pub fn camera_direction(keys: Keys) -> (r: Option<(i32, i32)>)
    ensures
        keys.bits == 0 ==> r is None,
        keys.bits != 0 ==> r == Some(
            (
                axis(held(keys, KEY_RIGHT), held(keys, KEY_LEFT)) as i32,
                axis(held(keys, KEY_DOWN), held(keys, KEY_UP)) as i32,
            ),
        ),
{
    if keys.is_empty() {
        return None;
    }
    let mut x: i32 = 0;
    let mut z: i32 = 0;
    if keys.contains(Keys::left()) {
        x = x - 1;
    }
    if keys.contains(Keys::right()) {
        x = x + 1;
    }
    if keys.contains(Keys::up()) {
        z = z - 1;
    }
    if keys.contains(Keys::down()) {
        z = z + 1;
    }
    Some((x, z))
}

} // verus!

use vstd::prelude::*;

verus! {

/// Godot's button index of the left mouse button.
pub const LMB: i64 = 1;

/// Godot's button index of the right mouse button.
pub const RMB: i64 = 2;

/// The mouse button event of the current frame, if any system has not consumed it yet.
#[derive(Debug, Clone, Copy, PartialEq, Eq, Structural)]
pub enum MouseButton {
    Empty,
    Mouse { pressed: bool, button_index: i64 },
}

impl MouseButton {
    /// Marks the event as handled: later systems of the frame see no event.
    pub fn consume(&mut self)
        ensures
            *final(self) == MouseButton::Empty,
    {
        *self = MouseButton::Empty;
    }

    /// True when the event is a press of the button `index`.
    pub fn button_pressed(&self, index: i64) -> (r: bool)
        ensures
            r == (*self matches MouseButton::Mouse { pressed, button_index } && pressed
                && button_index == index),
    {
        match self {
            MouseButton::Empty => false,
            MouseButton::Mouse { pressed, button_index } => *pressed && *button_index == index,
        }
    }

    /// True when the event is a release of the button `index`.
    pub fn button_released(&self, index: i64) -> (r: bool)
        ensures
            r == (*self matches MouseButton::Mouse { pressed, button_index } && !pressed
                && button_index == index),
    {
        match self {
            MouseButton::Empty => false,
            MouseButton::Mouse { pressed, button_index } => !*pressed && *button_index == index,
        }
    }
}

/// A set of direction keys, one bit per key.
#[derive(Debug, Clone, Copy, PartialEq, Eq, Hash, Structural)]
pub struct Keys {
    pub bits: u32,
}

pub const KEY_LEFT: u32 = 1;
pub const KEY_RIGHT: u32 = 2;
pub const KEY_UP: u32 = 4;
pub const KEY_DOWN: u32 = 8;

impl Keys {
    /// The set with no key.
    pub fn empty() -> (r: Keys)
        ensures
            r.bits == 0,
    {
        Keys { bits: 0 }
    }

    pub fn left() -> (r: Keys)
        ensures
            r.bits == KEY_LEFT,
    {
        Keys { bits: KEY_LEFT }
    }

    pub fn right() -> (r: Keys)
        ensures
            r.bits == KEY_RIGHT,
    {
        Keys { bits: KEY_RIGHT }
    }

    pub fn up() -> (r: Keys)
        ensures
            r.bits == KEY_UP,
    {
        Keys { bits: KEY_UP }
    }

    pub fn down() -> (r: Keys)
        ensures
            r.bits == KEY_DOWN,
    {
        Keys { bits: KEY_DOWN }
    }

    pub fn is_empty(&self) -> (r: bool)
        ensures
            r == (self.bits == 0),
    {
        self.bits == 0
    }

    /// True when every key of `other` is in the set.
    pub fn contains(&self, other: Keys) -> (r: bool)
        ensures
            r == (self.bits & other.bits == other.bits),
    {
        self.bits & other.bits == other.bits
    }

    /// Adds the keys of `other` to the set.
    pub fn insert(&mut self, other: Keys)
        ensures
            final(self).bits == old(self).bits | other.bits,
    {
        self.bits = self.bits | other.bits;
    }

    /// Takes the keys of `other` out of the set.
    pub fn remove(&mut self, other: Keys)
        ensures
            final(self).bits == old(self).bits & !other.bits,
    {
        self.bits = self.bits & !other.bits;
    }
}

/// Letting a key go undoes pressing it: after `update(key, true)` and then
/// `update(key, false)` the keys held are those held before, less `key`.
pub proof fn lemma_press_then_release(before: u32, key: u32)
    ensures
        (before | key) & !key == before & !key,
        (before | key) & !key & key == 0,
{
    assert((before | key) & !key == before & !key) by (bit_vector);
    assert((before | key) & !key & key == 0) by (bit_vector);
}

/// The direction keys held down, as the input events reported them.
pub struct Keyboard {
    keys: Keys,
}

impl View for Keyboard {
    type V = Keys;

    closed spec fn view(&self) -> Keys {
        self.keys
    }
}

impl Keyboard {
    /// A keyboard with no key held.
    pub fn new() -> (r: Keyboard)
        ensures
            r@.bits == 0,
    {
        Keyboard { keys: Keys::empty() }
    }

    /// Records a press (the key joins the set) or a release (it leaves it).
    pub fn update(&mut self, key: Keys, is_pressed: bool)
        ensures
            is_pressed ==> final(self)@.bits == old(self)@.bits | key.bits,
            !is_pressed ==> final(self)@.bits == old(self)@.bits & !key.bits,
    {
        if is_pressed {
            self.keys.insert(key);
        } else {
            self.keys.remove(key);
        }
    }

    /// The keys held now.
    pub fn keys(&self) -> (r: Keys)
        ensures
            r == self@,
    {
        self.keys
    }
}

} // verus!

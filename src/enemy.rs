use vstd::prelude::*;

verus! {

/// Tag of a unit that fights against the player.
#[derive(Debug, Clone, Copy, PartialEq, Eq, Structural)]
pub struct Enemy;

} // verus!

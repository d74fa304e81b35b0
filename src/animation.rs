use vstd::prelude::*;

verus! {

/// The animation a unit should show.
#[derive(Debug, Clone, Copy, PartialEq, Eq, Structural)]
pub enum Animation {
    Idle,
    Run,
}

/// What to ask of a unit's animation state machine this frame.
#[derive(Debug, Clone, Copy, PartialEq, Eq, Structural)]
pub enum PlaybackAction {
    /// The machine is stopped: start it in this state.
    Start(Animation),
    /// The machine is still on its way to a state: leave it.
    Wait,
    /// Travel to this state.
    Travel(Animation),
}

impl Animation {
    /// The name of the looping state that shows this animation.
    pub fn state_name(&self) -> (r: &'static str)
        ensures
            *self == Animation::Idle ==> r@ == "Idle-loop"@,
            *self == Animation::Run ==> r@ == "Run-loop"@,
    {
        match self {
            Animation::Idle => "Idle-loop",
            Animation::Run => "Run-loop",
        }
    }
}

/// The step for a machine that is `is_playing` or not, with `travel_path_len` states
/// still to pass, for a unit that should show `anim`.
pub fn playback_action(anim: Animation, is_playing: bool, travel_path_len: usize) -> (r:
    PlaybackAction)
    ensures
        !is_playing ==> r == PlaybackAction::Start(Animation::Idle),
        is_playing && travel_path_len > 0 ==> r == PlaybackAction::Wait,
        is_playing && travel_path_len == 0 ==> r == PlaybackAction::Travel(anim),
{
    if !is_playing {
        return PlaybackAction::Start(Animation::Idle);
    }
    if travel_path_len > 0 {
        return PlaybackAction::Wait;
    }
    PlaybackAction::Travel(anim)
}

} // verus!

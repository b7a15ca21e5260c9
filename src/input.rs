use vstd::prelude::*;
use crate::snake::Direction;

verus! {

/// The direction most recently asked for by the player.
pub struct KeyboardInputState(pub Direction);

impl Default for KeyboardInputState {
    fn default() -> (r: Self)
        ensures
            r.0 == Direction::Up,
    {
        KeyboardInputState(Direction::Up)
    }
}

/// The direction latched from one frame of key presses: the first of
/// left, right, up, down that was just pressed, else the previous one.
pub open spec fn latched(prev: Direction, left: bool, right: bool, up: bool, down: bool) -> Direction {
    if left {
        Direction::Left
    } else if right {
        Direction::Right
    } else if up {
        Direction::Up
    } else if down {
        Direction::Down
    } else {
        prev
    }
}

/// Records the keys just pressed in this frame.
pub fn keyboard_input(state: &mut KeyboardInputState, left: bool, right: bool, up: bool, down: bool)
    ensures
        final(state).0 == latched(old(state).0, left, right, up, down),
{
    state.0 = if left {
        Direction::Left
    } else if right {
        Direction::Right
    } else if up {
        Direction::Up
    } else if down {
        Direction::Down
    } else {
        state.0
    };
}

} // verus!

use vstd::prelude::*;
use crate::grid::{cell_in_bounds, Position};
use crate::input::KeyboardInputState;
use crate::snake::{
    eaten, reverse, snake_eating, snake_growth, snake_movement, snake_movement_input, spawn_body,
    spawn_head, stepped, turned, uneaten, Direction, GameOverEvent, SnakeState,
};

verus! {

/// The heading the snake moves in on a tick with `input` latched.
pub open spec fn next_heading(s: SnakeState, input: KeyboardInputState) -> Direction {
    turned(s.head.direction, input.0)
}

/// The cell the head moves to on a tick with `input` latched.
pub open spec fn next_head(s: SnakeState, input: KeyboardInputState) -> Position {
    stepped(s.body()[0], next_heading(s, input))
}

/// Whether the move to `next_head` ends the game.
pub open spec fn ends_game(s: SnakeState, input: KeyboardInputState) -> bool {
    !cell_in_bounds(next_head(s, input)) || s.body().contains(next_head(s, input))
}

/// On a game over, clears the food and puts the snake back in its initial
/// layout; otherwise changes nothing.
pub fn game_over(state: &mut SnakeState, foods: &mut Vec<Position>, event: &Option<GameOverEvent>)
    ensures
        event.is_some() ==> final(state).is_initial() && final(foods)@.len() == 0,
        event.is_none() ==> *final(state) == *old(state) && *final(foods) == *old(foods),
{
    if event.is_some() {
        foods.clear();
        state.reset();
    }
}

/// One movement tick: latch the input, move, eat, grow, and reset on a game
/// over. Returns whether the game ended on this tick.
pub fn tick(state: &mut SnakeState, foods: &mut Vec<Position>, input: &KeyboardInputState) -> (r: bool)
    requires
        old(state).wf(),
    ensures
        final(state).wf(),
        r == ends_game(*old(state), *input),
        r ==> final(state).is_initial() && final(foods)@.len() == 0,
        !r ==> final(state).head.direction == next_heading(*old(state), *input),
        !r ==> final(state).body()[0] == next_head(*old(state), *input),
        !r ==> forall|i: int|
            1 <= i < old(state).body().len() ==> #[trigger] final(state).body()[i] == old(
                state,
            ).body()[i - 1],
        !r ==> final(foods)@ == uneaten(old(foods)@, next_head(*old(state), *input)),
        !r ==> final(state).last_tail_position.0 == Some(old(state).body().last()),
        !r && eaten(old(foods)@, next_head(*old(state), *input)) == 0 ==> final(state).body().len()
            == old(state).body().len(),
        !r && eaten(old(foods)@, next_head(*old(state), *input)) > 0 ==> final(state).body().len()
            == old(state).body().len() + 1 && final(state).body().last() == old(
            state,
        ).body().last(),
{
    snake_movement_input(input, state);
    let over = snake_movement(state);
    let events = snake_eating(state, foods);
    snake_growth(state, &events);
    game_over(state, foods, &over);
    over.is_some()
}

/// A reversal request is ignored: the heading stays and the head moves on
/// along it, never back the way it came.
pub proof fn reversal_is_ignored(heading: Direction, head: Position)
    requires
        i32::MIN < head.x < i32::MAX,
        i32::MIN < head.y < i32::MAX,
    ensures
        turned(heading, reverse(heading)) == heading,
        stepped(head, turned(heading, reverse(heading))) == stepped(head, heading),
        stepped(head, turned(heading, reverse(heading))) != stepped(head, reverse(heading)),
{
}

/// Every reset gives the same state: two snakes that were reset agree in
/// heading, cells and last tail position.
pub proof fn reset_is_canonical(a: SnakeState, b: SnakeState)
    requires
        a.is_initial(),
        b.is_initial(),
    ensures
        a.head.direction == b.head.direction,
        a.body() == b.body(),
        a.body() == seq![spawn_head(), spawn_body()],
        a.last_tail_position.0 == b.last_tail_position.0,
{
}

} // verus!

use vstd::prelude::*;
use crate::grid::{cell_in_bounds, in_bounds, Position};
use crate::input::KeyboardInputState;

verus! {

/// One of the four headings of the snake.
#[derive(Clone, Copy, Debug, PartialEq, Eq, Structural)]
pub enum Direction {
    Left,
    Up,
    Right,
    Down,
}

/// The heading that points the other way.
pub open spec fn reverse(d: Direction) -> Direction {
    match d {
        Direction::Left => Direction::Right,
        Direction::Right => Direction::Left,
        Direction::Up => Direction::Down,
        Direction::Down => Direction::Up,
    }
}

/// Horizontal offset of one step in `d`.
pub open spec fn dx(d: Direction) -> int {
    match d {
        Direction::Left => -1,
        Direction::Right => 1,
        _ => 0,
    }
}

/// Vertical offset of one step in `d`.
pub open spec fn dy(d: Direction) -> int {
    match d {
        Direction::Up => 1,
        Direction::Down => -1,
        _ => 0,
    }
}

/// The cell one step from `p` in `d`.
pub open spec fn stepped(p: Position, d: Direction) -> Position {
    Position { x: (p.x + dx(d)) as i32, y: (p.y + dy(d)) as i32 }
}

/// The heading after asking for `wanted` while travelling in `current`:
/// a reversal is ignored.
pub open spec fn turned(current: Direction, wanted: Direction) -> Direction {
    if wanted == reverse(current) {
        current
    } else {
        wanted
    }
}

impl Direction {
    pub fn opposite(self) -> (r: Self)
        ensures
            r == reverse(self),
    {
        match self {
            Direction::Left => Direction::Right,
            Direction::Right => Direction::Left,
            Direction::Up => Direction::Down,
            Direction::Down => Direction::Up,
        }
    }
}

/// The head of the snake: the heading it travels in.
pub struct SnakeHead {
    pub direction: Direction,
}

/// The cells of the snake, head first.
pub struct SnakeSegments(pub Vec<Position>);

/// Where the tail was before the last move; a new segment grows there.
pub struct LastTailPosition(pub Option<Position>);

/// Raised when the head reaches food.
pub struct GrowthEvent;

/// Raised when the head leaves the board or runs into the snake.
pub struct GameOverEvent;

/// The whole state of the snake.
pub struct SnakeState {
    pub head: SnakeHead,
    pub segments: SnakeSegments,
    pub last_tail_position: LastTailPosition,
}

/// The cell where a fresh snake puts its head.
pub open spec fn spawn_head() -> Position {
    Position { x: 3, y: 3 }
}

/// The cell where a fresh snake puts its one body segment.
pub open spec fn spawn_body() -> Position {
    Position { x: 3, y: 2 }
}

impl SnakeState {
    /// The cells of the snake, head first.
    pub open spec fn body(&self) -> Seq<Position> {
        self.segments.0@
    }

    /// The state of a freshly spawned snake.
    pub open spec fn is_initial(&self) -> bool {
        &&& self.head.direction == Direction::Up
        &&& self.body() == seq![spawn_head(), spawn_body()]
        &&& self.last_tail_position.0.is_none()
    }

    /// The head can take one step without leaving the range of `i32`.
    pub open spec fn movable(&self) -> bool {
        &&& self.body().len() >= 1
        &&& i32::MIN < self.body()[0].x < i32::MAX
        &&& i32::MIN < self.body()[0].y < i32::MAX
    }

    /// A snake at rest between ticks: it has a head, on the board.
    pub open spec fn wf(&self) -> bool {
        &&& self.body().len() >= 1
        &&& cell_in_bounds(self.body()[0])
    }

    /// Puts the snake back in its initial layout.
    pub fn reset(&mut self)
        ensures
            final(self).is_initial(),
    {
        *self = spawn_snake();
    }

    /// Appends a segment at `position`.
    pub fn spawn_segment(&mut self, position: Position)
        ensures
            final(self).body() == old(self).body().push(position),
            final(self).head == old(self).head,
            final(self).last_tail_position == old(self).last_tail_position,
    {
        self.segments.0.push(position);
    }
}

/// A fresh snake: head at (3, 3) heading up, one segment below it.
pub fn spawn_snake() -> (r: SnakeState)
    ensures
        r.is_initial(),
        r.wf(),
{
    let mut cells: Vec<Position> = Vec::new();
    cells.push(Position { x: 3, y: 3 });
    cells.push(Position { x: 3, y: 2 });
    let r = SnakeState {
        head: SnakeHead { direction: Direction::Up },
        segments: SnakeSegments(cells),
        last_tail_position: LastTailPosition(None),
    };
    assert(r.body() =~= seq![spawn_head(), spawn_body()]);
    r
}

/// Takes on the latched direction, unless it would reverse the snake.
pub fn snake_movement_input(keyboard_input: &KeyboardInputState, state: &mut SnakeState)
    ensures
        final(state).head.direction == turned(old(state).head.direction, keyboard_input.0),
        final(state).segments == old(state).segments,
        final(state).last_tail_position == old(state).last_tail_position,
{
    let dir = keyboard_input.0;
    if dir != state.head.direction.opposite() {
        state.head.direction = dir;
    }
}

/// Whether `p` is one of `cells`.
pub fn occupied(cells: &Vec<Position>, p: Position) -> (r: bool)
    ensures
        r == cells@.contains(p),
{
    let mut i: usize = 0;
    while i < cells.len()
        invariant
            i <= cells@.len(),
            forall|j: int| 0 <= j < i ==> cells@[j] != p,
        decreases cells.len() - i,
    {
        if cells[i] == p {
            return true;
        }
        i += 1;
    }
    false
}

/// Moves the snake one step: the head goes one cell along its heading and
/// every other segment takes the cell of the one ahead of it, as it was
/// before the move. Reports a game over when the new head is off the board
/// or on a cell the snake held before the move.
pub fn snake_movement(state: &mut SnakeState) -> (r: Option<GameOverEvent>)
    requires
        old(state).movable(),
    ensures
        final(state).head == old(state).head,
        final(state).body().len() == old(state).body().len(),
        final(state).body()[0] == stepped(old(state).body()[0], old(state).head.direction),
        final(state).body()[0].x == old(state).body()[0].x + dx(old(state).head.direction),
        final(state).body()[0].y == old(state).body()[0].y + dy(old(state).head.direction),
        forall|i: int|
            1 <= i < old(state).body().len() ==> #[trigger] final(state).body()[i] == old(
                state,
            ).body()[i - 1],
        final(state).last_tail_position.0 == Some(old(state).body().last()),
        r.is_some() == (!cell_in_bounds(final(state).body()[0]) || old(state).body().contains(
            final(state).body()[0],
        )),
{
    let before = &state.segments.0;
    let len = before.len();
    let head = before[0];
    let new_head = match state.head.direction {
        Direction::Left => Position { x: head.x - 1, y: head.y },
        Direction::Right => Position { x: head.x + 1, y: head.y },
        Direction::Up => Position { x: head.x, y: head.y + 1 },
        Direction::Down => Position { x: head.x, y: head.y - 1 },
    };
    let hit = !in_bounds(new_head) || occupied(before, new_head);
    let mut next: Vec<Position> = Vec::new();
    next.push(new_head);
    let mut i: usize = 1;
    while i < len
        invariant
            1 <= i <= len,
            len == before@.len(),
            next@.len() == i,
            next@[0] == new_head,
            forall|j: int| 1 <= j < i ==> #[trigger] next@[j] == before@[j - 1],
        decreases len - i,
    {
        next.push(before[i - 1]);
        i += 1;
    }
    let tail = before[len - 1];
    state.segments = SnakeSegments(next);
    state.last_tail_position = LastTailPosition(Some(tail));
    if hit {
        Some(GameOverEvent)
    } else {
        None
    }
}

/// The food left after the head at `head` eats every piece on its cell.
pub open spec fn uneaten(foods: Seq<Position>, head: Position) -> Seq<Position>
    decreases foods.len(),
{
    if foods.len() == 0 {
        foods
    } else if foods.last() == head {
        uneaten(foods.drop_last(), head)
    } else {
        uneaten(foods.drop_last(), head).push(foods.last())
    }
}

/// How many pieces of food lie on the cell `head`.
pub open spec fn eaten(foods: Seq<Position>, head: Position) -> nat
    decreases foods.len(),
{
    if foods.len() == 0 {
        0
    } else if foods.last() == head {
        eaten(foods.drop_last(), head) + 1
    } else {
        eaten(foods.drop_last(), head)
    }
}

/// Removes every piece of food under the head, raising one growth event
/// for each.
pub fn snake_eating(state: &SnakeState, foods: &mut Vec<Position>) -> (r: Vec<GrowthEvent>)
    requires
        state.body().len() >= 1,
    ensures
        final(foods)@ == uneaten(old(foods)@, state.body()[0]),
        r@.len() == eaten(old(foods)@, state.body()[0]),
{
    let head = state.segments.0[0];
    let ghost all = foods@;
    let mut kept: Vec<Position> = Vec::new();
    let mut events: Vec<GrowthEvent> = Vec::new();
    let mut i: usize = 0;
    while i < foods.len()
        invariant
            foods@ == all,
            i <= all.len(),
            head == state.body()[0],
            kept@ == uneaten(all.take(i as int), head),
            events@.len() == eaten(all.take(i as int), head),
        decreases foods.len() - i,
    {
        let food = foods[i];
        assert(all.take(i + 1).drop_last() =~= all.take(i as int));
        if food == head {
            events.push(GrowthEvent);
        } else {
            kept.push(food);
        }
        i += 1;
    }
    assert(all.take(all.len() as int) =~= all);
    *foods = kept;
    events
}

/// Grows the snake by one segment at the last tail position when at least
/// one growth event was raised in this tick.
pub fn snake_growth(state: &mut SnakeState, events: &Vec<GrowthEvent>)
    requires
        events@.len() > 0 ==> old(state).last_tail_position.0.is_some(),
    ensures
        final(state).head == old(state).head,
        final(state).last_tail_position == old(state).last_tail_position,
        events@.len() > 0 ==> final(state).body() == old(state).body().push(
            old(state).last_tail_position.0.unwrap(),
        ),
        events@.len() == 0 ==> final(state).body() == old(state).body(),
{
    if events.len() > 0 {
        match state.last_tail_position.0 {
            Some(tail) => state.spawn_segment(tail),
            None => {},
        }
    }
}

} // verus!

use vstd::prelude::*;
use crate::grid::{cell_in_bounds, in_bounds, Position, GRID_HEIGHT, GRID_WIDTH};
use crate::snake::{occupied, SnakeState};

verus! {

/// Relies on rand::random: a value drawn from the thread-local generator.
/// Nothing is promised of which value comes.
pub assume_specification<T>[ rand::random::<T> ]() -> (r: T)
    where
        rand::distributions::Standard: rand::distributions::Distribution<T>,
;

/// How many random cells are tried before the board is scanned in order.
pub const FOOD_DRAWS: usize = 64;

/// A cell where food may be put: on the board and off the snake.
pub open spec fn free_cell(cells: Seq<Position>, p: Position) -> bool {
    cell_in_bounds(p) && !cells.contains(p)
}

/// Every cell of the board is held by the snake.
pub open spec fn board_full(cells: Seq<Position>) -> bool {
    forall|p: Position| cell_in_bounds(p) ==> #[trigger] cells.contains(p)
}

/// The first of `draws` that is a free cell, if any.
pub open spec fn first_free_draw(cells: Seq<Position>, draws: Seq<Position>) -> Option<Position>
    decreases draws.len(),
{
    if draws.len() == 0 {
        None
    } else if free_cell(cells, draws[0]) {
        Some(draws[0])
    } else {
        first_free_draw(cells, draws.skip(1))
    }
}

/// A cell drawn at random from the board.
pub fn random_cell() -> (r: Position)
    ensures
        cell_in_bounds(r),
{
    let x: u32 = rand::random::<u32>() % GRID_WIDTH;
    let y: u32 = rand::random::<u32>() % GRID_HEIGHT;
    Position { x: x as i32, y: y as i32 }
}

/// The first free cell in column-major order, or `None` when the snake
/// fills the board.
pub fn first_free_cell(cells: &Vec<Position>) -> (r: Option<Position>)
    ensures
        r matches Some(p) ==> free_cell(cells@, p),
        r.is_none() == board_full(cells@),
{
    let mut x: i32 = 0;
    while x < GRID_WIDTH as i32
        invariant
            0 <= x <= GRID_WIDTH,
            forall|p: Position| cell_in_bounds(p) && p.x < x ==> #[trigger] cells@.contains(p),
        decreases GRID_WIDTH - x,
    {
        let mut y: i32 = 0;
        while y < GRID_HEIGHT as i32
            invariant
                0 <= x < GRID_WIDTH,
                0 <= y <= GRID_HEIGHT,
                forall|p: Position| cell_in_bounds(p) && p.x < x ==> #[trigger] cells@.contains(p),
                forall|p: Position|
                    cell_in_bounds(p) && p.x == x && p.y < y ==> #[trigger] cells@.contains(p),
            decreases GRID_HEIGHT - y,
        {
            let p = Position { x, y };
            if !occupied(cells, p) {
                return Some(p);
            }
            y += 1;
        }
        x += 1;
    }
    None
}

/// Where food goes, given the cells the snake holds and cells drawn at
/// random: the first free drawn cell, else the first free cell of the board.
pub fn choose_food_cell(cells: &Vec<Position>, draws: &Vec<Position>) -> (r: Option<Position>)
    ensures
        first_free_draw(cells@, draws@) is Some ==> r == first_free_draw(cells@, draws@),
        r matches Some(p) ==> free_cell(cells@, p),
        r.is_none() == board_full(cells@),
{
    let mut i: usize = 0;
    assert(draws@.skip(0) =~= draws@);
    while i < draws.len()
        invariant
            i <= draws@.len(),
            first_free_draw(cells@, draws@) == first_free_draw(cells@, draws@.skip(i as int)),
        decreases draws.len() - i,
    {
        let p = draws[i];
        assert(draws@.skip(i as int)[0] == p);
        assert(draws@.skip(i as int).skip(1) =~= draws@.skip(i + 1));
        if in_bounds(p) && !occupied(cells, p) {
            return Some(p);
        }
        i += 1;
    }
    let r = first_free_cell(cells);
    proof {
        if let Some(p) = r {
            assert(!board_full(cells@)) by {
                assert(cell_in_bounds(p) && !cells@.contains(p));
            }
        }
    }
    r
}

/// Picks a cell for new food: random draws first, rejecting cells the snake
/// holds, then a scan of the board. `None` only when the board is full.
/// Food already on the board is not consulted, so a second piece may be
/// placed while the first is still uneaten.
pub fn food_spawner(state: &SnakeState) -> (r: Option<Position>)
    ensures
        r matches Some(p) ==> free_cell(state.body(), p),
        r.is_none() == board_full(state.body()),
{
    let mut draws: Vec<Position> = Vec::new();
    let mut i: usize = 0;
    while i < FOOD_DRAWS
        decreases FOOD_DRAWS - i,
    {
        draws.push(random_cell());
        i += 1;
    }
    choose_food_cell(&state.segments.0, &draws)
}

} // verus!

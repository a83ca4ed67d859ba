use vstd::prelude::*;

use crate::grid::{advance_head, next_head, Cell, Direction, Grid};
use crate::snake::{
    chosen_direction, has_self_collision, initial_body, next_direction, shifted_body, Snake,
};

verus! {

/// The one item the snake eats; it always lies strictly within the grid's
/// cell counts, where random placement can put it.
#[derive(Clone, Copy, PartialEq, Eq, Structural, Debug)]
pub struct Food {
    pub position: Cell,
}

/// The whole game: the snake, the grid it moves on, the food, and the
/// end-of-game flag. One value of this is stepped once per tick.
#[derive(Debug)]
pub struct State {
    pub snake: Snake,
    pub grid: Grid,
    pub food: Food,
    pub end_game: bool,
}

/// Relies on rand::random: a pseudo-random value drawn from the thread's
/// generator; nothing is promised of it.
pub assume_specification<T>[ rand::random::<T> ]() -> (r: T)
    where
        rand::distributions::Standard: rand::distributions::Distribution<T>,
;

/// A pseudo-randomly placed cell within the grid's cell counts, from
/// independent row and column draws.
pub fn random_cell(grid: &Grid) -> (c: Cell)
    requires
        grid.width_in_cells >= 1,
        grid.height_in_cells >= 1,
    ensures
        c.row < grid.height_in_cells,
        c.column < grid.width_in_cells,
{
    let row_draw: u32 = rand::random::<u32>();
    let column_draw: u32 = rand::random::<u32>();
    Cell { row: row_draw % grid.height_in_cells, column: column_draw % grid.width_in_cells }
}

impl State {
    /// Well formed: a non-empty snake body, a grid of at least one cell
    /// each way, and food within the grid's cell counts.
    pub open spec fn wf(self) -> bool {
        &&& self.snake.wf()
        &&& self.grid.width_in_cells >= 1
        &&& self.grid.height_in_cells >= 1
        &&& self.food.position.row < self.grid.height_in_cells
        &&& self.food.position.column < self.grid.width_in_cells
    }

    /// A fresh game on `grid`: the fixed starting snake heading right,
    /// randomly placed food, and the game running.
    pub fn new_game(grid: Grid) -> (s: State)
        requires
            grid.width_in_cells >= 1,
            grid.height_in_cells >= 1,
        ensures
            s.wf(),
            s.snake.body@ == initial_body(),
            s.snake.direction == Direction::Right,
            s.grid == grid,
            !s.end_game,
    {
        let snake = Snake::initial();
        let food = Food { position: random_cell(&grid) };
        State { snake, grid, food, end_game: false }
    }

    /// One movement step of the snake alone: the head advances one cell in
    /// the current heading, wrapping at the grid edges; every other segment
    /// takes its predecessor's old place; with `append_cell` the old tail
    /// is repeated once more at the end.
    pub fn get_next_body_pos(&self, append_cell: bool) -> (s: Snake)
        requires
            self.snake.wf(),
        ensures
            s.direction == self.snake.direction,
            s.body@ == shifted_body(
                self.snake.body@,
                next_head(self.snake.body@[0], self.snake.direction, self.grid),
                append_cell,
            ),
            s.wf(),
    {
        let new_head = advance_head(self.snake.body[0], self.snake.direction, &self.grid);
        let mut body: Vec<Cell> = Vec::new();
        body.push(new_head);
        let keep: usize = if append_cell {
            self.snake.body.len()
        } else {
            self.snake.body.len() - 1
        };
        let mut i: usize = 0;
        while i < keep
            invariant
                i <= keep,
                keep <= self.snake.body@.len(),
                body@.len() == i + 1,
                body@[0] == new_head,
                forall|j: int| 1 <= j <= i ==> body@[j] == self.snake.body@[j - 1],
            decreases keep - i,
        {
            body.push(self.snake.body[i]);
            i += 1;
        }
        proof {
            assert(body@ =~= shifted_body(
                self.snake.body@,
                next_head(self.snake.body@[0], self.snake.direction, self.grid),
                append_cell,
            ));
        }
        Snake { body, direction: self.snake.direction }
    }

    /// One simulation tick, driven by the currently pressed keys.
    ///
    /// If the snake lies on itself the game is lost: the state freezes with
    /// the end-of-game flag set, except that the restart key starts a fresh
    /// run (the fixed starting snake, randomly relocated food, flag
    /// cleared). Otherwise the heading follows the pressed movement keys,
    /// the snake takes one step — growing exactly when its head stood on
    /// the food — and eaten food is randomly relocated.
    pub fn tick(&mut self, up: bool, left: bool, right: bool, down: bool, restart: bool)
        requires
            old(self).wf(),
        ensures
            final(self).wf(),
            final(self).grid == old(self).grid,
            has_self_collision(old(self).snake.body@) && restart ==> {
                &&& final(self).snake.body@ == initial_body()
                &&& final(self).snake.direction == Direction::Right
                &&& !final(self).end_game
            },
            has_self_collision(old(self).snake.body@) && !restart ==> {
                &&& final(self).end_game
                &&& final(self).snake.body@ == old(self).snake.body@
                &&& final(self).snake.direction == old(self).snake.direction
                &&& final(self).food == old(self).food
            },
            !has_self_collision(old(self).snake.body@) ==> {
                let direction = chosen_direction(
                    old(self).snake.direction,
                    up,
                    left,
                    right,
                    down,
                );
                let grow = old(self).snake.body@[0] == old(self).food.position;
                &&& final(self).end_game == old(self).end_game
                &&& final(self).snake.direction == direction
                &&& final(self).snake.body@ == shifted_body(
                    old(self).snake.body@,
                    next_head(old(self).snake.body@[0], direction, old(self).grid),
                    grow,
                )
                &&& !grow ==> final(self).food == old(self).food
            },
    {
        if self.snake.self_collision() {
            self.end_game = true;
            if restart {
                self.snake = Snake::initial();
                self.end_game = false;
                self.food = Food { position: random_cell(&self.grid) };
            }
            return;
        }
        self.snake.direction = next_direction(self.snake.direction, up, left, right, down);
        if self.snake.body[0] == self.food.position {
            self.snake = self.get_next_body_pos(true);
            self.food = Food { position: random_cell(&self.grid) };
        } else {
            self.snake = self.get_next_body_pos(false);
        }
    }
}

} // verus!

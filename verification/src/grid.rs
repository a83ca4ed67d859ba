use vstd::prelude::*;

verus! {

/// Side of one grid square, in pixels; window dimensions are divided by this
/// to obtain the grid's extent in cells.
pub const CELL_SIZE: u32 = 20;

/// One square of the playing field, addressed by row and column.
#[derive(Clone, Copy, PartialEq, Eq, Structural, Debug)]
pub struct Cell {
    pub row: u32,
    pub column: u32,
}

/// A movement heading; the snake never moves diagonally.
#[derive(Clone, Copy, PartialEq, Eq, Structural, Debug)]
pub enum Direction {
    Left,
    Right,
    Up,
    Down,
}

/// The playing field, measured in cells. Coordinates are toroidal: a head
/// stepping past one edge reappears at the opposite edge, so rows run over
/// `0 ..= height_in_cells` and columns over `0 ..= width_in_cells`.
#[derive(Clone, Copy, PartialEq, Eq, Structural, Debug)]
pub struct Grid {
    pub width_in_cells: u32,
    pub height_in_cells: u32,
}

/// The cell one step from `head` in `direction`, wrapping at the edges:
/// stepping below zero lands on the grid's far extent, stepping past the
/// far extent lands on zero.
pub open spec fn next_head(head: Cell, direction: Direction, grid: Grid) -> Cell {
    match direction {
        Direction::Up => if head.row == 0 {
            Cell { row: grid.height_in_cells, column: head.column }
        } else {
            Cell { row: (head.row - 1) as u32, column: head.column }
        },
        Direction::Down => if head.row >= grid.height_in_cells {
            Cell { row: 0, column: head.column }
        } else {
            Cell { row: (head.row + 1) as u32, column: head.column }
        },
        Direction::Left => if head.column == 0 {
            Cell { row: head.row, column: grid.width_in_cells }
        } else {
            Cell { row: head.row, column: (head.column - 1) as u32 }
        },
        Direction::Right => if head.column >= grid.width_in_cells {
            Cell { row: head.row, column: 0 }
        } else {
            Cell { row: head.row, column: (head.column + 1) as u32 }
        },
    }
}

/// Advance a head cell one step in `direction`, wrapping at the grid edges.
pub fn advance_head(head: Cell, direction: Direction, grid: &Grid) -> (c: Cell)
    ensures
        c == next_head(head, direction, *grid),
{
    match direction {
        Direction::Up => if head.row == 0 {
            Cell { row: grid.height_in_cells, column: head.column }
        } else {
            Cell { row: head.row - 1, column: head.column }
        },
        Direction::Down => if head.row >= grid.height_in_cells {
            Cell { row: 0, column: head.column }
        } else {
            Cell { row: head.row + 1, column: head.column }
        },
        Direction::Left => if head.column == 0 {
            Cell { row: head.row, column: grid.width_in_cells }
        } else {
            Cell { row: head.row, column: head.column - 1 }
        },
        Direction::Right => if head.column >= grid.width_in_cells {
            Cell { row: head.row, column: 0 }
        } else {
            Cell { row: head.row, column: head.column + 1 }
        },
    }
}

impl Grid {
    /// Is a cell within the drawable extent? Draw-time validity check: a
    /// coordinate beyond the grid's extent is skipped rather than drawn.
    pub open spec fn spec_cell_in_bounds(self, row: u32, column: u32) -> bool {
        row <= self.height_in_cells && column <= self.width_in_cells
    }

    /// Whether a cell at (`row`, `column`) lies on the grid and may be drawn.
    pub fn cell_in_bounds(&self, row: u32, column: u32) -> (r: bool)
        ensures
            r == self.spec_cell_in_bounds(row, column),
    {
        row <= self.height_in_cells && column <= self.width_in_cells
    }

    /// The grid covering a window of the given pixel dimensions, at one cell
    /// per `CELL_SIZE` pixels, truncated.
    pub fn from_pixels(window_width: u32, window_height: u32) -> (g: Grid)
        ensures
            g.width_in_cells == window_width / CELL_SIZE,
            g.height_in_cells == window_height / CELL_SIZE,
    {
        Grid {
            width_in_cells: window_width / CELL_SIZE,
            height_in_cells: window_height / CELL_SIZE,
        }
    }
}

/// Away from every edge, one step changes exactly one coordinate, by one,
/// and leaves the other coordinate unchanged.
pub proof fn lemma_step_interior(head: Cell, direction: Direction, grid: Grid)
    requires
        0 < head.row < grid.height_in_cells,
        0 < head.column < grid.width_in_cells,
    ensures
        ({
            let n = next_head(head, direction, grid);
            match direction {
                Direction::Up => n.row == head.row - 1 && n.column == head.column,
                Direction::Down => n.row == head.row + 1 && n.column == head.column,
                Direction::Left => n.column == head.column - 1 && n.row == head.row,
                Direction::Right => n.column == head.column + 1 && n.row == head.row,
            }
        }),
{
}

/// Wrap-around: stepping off one edge of the grid reappears at the opposite
/// edge, for each of the four directions.
pub proof fn lemma_step_wraps(head: Cell, grid: Grid)
    ensures
        head.row == 0 ==> next_head(head, Direction::Up, grid).row == grid.height_in_cells,
        head.row == grid.height_in_cells ==> next_head(head, Direction::Down, grid).row == 0,
        head.column == 0 ==> next_head(head, Direction::Left, grid).column == grid.width_in_cells,
        head.column == grid.width_in_cells ==> next_head(head, Direction::Right, grid).column == 0,
{
}

} // verus!

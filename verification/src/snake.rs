use vstd::prelude::*;

use crate::grid::{Cell, Direction};

verus! {

/// The snake: its body cells ordered head first, tail last, plus its
/// current heading. A snake's body is never empty.
#[derive(Clone, Debug)]
pub struct Snake {
    pub body: Vec<Cell>,
    pub direction: Direction,
}

/// The fixed starting body: three cells on row 20, head at column 7.
pub open spec fn initial_body() -> Seq<Cell> {
    seq![
        Cell { row: 20, column: 7 },
        Cell { row: 20, column: 5 },
        Cell { row: 20, column: 6 },
    ]
}

/// The body after one movement step: the new head in front, followed by the
/// whole old body when growing (the old tail is repeated), else by all of
/// the old body but its tail.
pub open spec fn shifted_body(body: Seq<Cell>, new_head: Cell, grow: bool) -> Seq<Cell> {
    if grow {
        seq![new_head] + body
    } else {
        seq![new_head] + body.drop_last()
    }
}

/// The heading after one round of input. Keys are checked in the fixed
/// order Up, Left, Right, Down and the first pressed one wins; with none
/// pressed the current heading is kept.
pub open spec fn chosen_direction(
    current: Direction,
    up: bool,
    left: bool,
    right: bool,
    down: bool,
) -> Direction {
    if up {
        Direction::Up
    } else if left {
        Direction::Left
    } else if right {
        Direction::Right
    } else if down {
        Direction::Down
    } else {
        current
    }
}

/// Pick the heading for this tick from the pressed movement keys.
pub fn next_direction(current: Direction, up: bool, left: bool, right: bool, down: bool) -> (d:
    Direction)
    ensures
        d == chosen_direction(current, up, left, right, down),
{
    if up {
        Direction::Up
    } else if left {
        Direction::Left
    } else if right {
        Direction::Right
    } else if down {
        Direction::Down
    } else {
        current
    }
}

impl Snake {
    /// A snake is well formed when its body holds at least one cell.
    pub open spec fn wf(self) -> bool {
        self.body@.len() >= 1
    }

    /// The fixed starting snake: three cells, heading right.
    pub fn initial() -> (s: Snake)
        ensures
            s.body@ == initial_body(),
            s.direction == Direction::Right,
            s.wf(),
    {
        let mut body: Vec<Cell> = Vec::new();
        body.push(Cell { row: 20, column: 7 });
        body.push(Cell { row: 20, column: 5 });
        body.push(Cell { row: 20, column: 6 });
        proof {
            assert(body@ =~= initial_body());
        }
        Snake { body, direction: Direction::Right }
    }

    /// Does the head currently lie on any later body segment?
    pub fn self_collision(&self) -> (r: bool)
        requires
            self.wf(),
        ensures
            r == has_self_collision(self.body@),
    {
        let head = self.body[0];
        let mut i: usize = 1;
        while i < self.body.len()
            invariant
                1 <= i <= self.body@.len(),
                head == self.body@[0],
                forall|k: int| 1 <= k < i ==> #[trigger] self.body@[k] != self.body@[0],
            decreases self.body@.len() - i,
        {
            if self.body[i] == head {
                assert(has_self_collision(self.body@)) by {
                    assert(self.body@[i as int] == self.body@[0]);
                }
                return true;
            }
            i += 1;
        }
        false
    }
}

/// A body collides with itself when some segment behind the head occupies
/// the head's cell.
pub open spec fn has_self_collision(body: Seq<Cell>) -> bool {
    exists|k: int| 1 <= k < body.len() && #[trigger] body[k] == body[0]
}

/// Body shift: one non-growth step keeps the body's length, puts the new
/// head in front, and moves every other segment to its predecessor's old
/// place.
pub proof fn lemma_body_shift(body: Seq<Cell>, new_head: Cell)
    requires
        body.len() >= 1,
    ensures
        shifted_body(body, new_head, false).len() == body.len(),
        shifted_body(body, new_head, false)[0] == new_head,
        forall|i: int|
            1 <= i < body.len() ==> shifted_body(body, new_head, false)[i] == body[i - 1],
{
}

/// Growth: one growing step lengthens the body by exactly one cell, shifts
/// it as a non-growth step would, and the appended tail repeats the old
/// (pre-shift) tail.
pub proof fn lemma_body_growth(body: Seq<Cell>, new_head: Cell)
    requires
        body.len() >= 1,
    ensures
        shifted_body(body, new_head, true).len() == body.len() + 1,
        shifted_body(body, new_head, true)[0] == new_head,
        forall|i: int|
            1 <= i <= body.len() ==> shifted_body(body, new_head, true)[i] == body[i - 1],
        shifted_body(body, new_head, true).last() == body.last(),
{
}

} // verus!

//! The line evaluator: the eight winning lines, line extraction, and the
//! reduction of a board into a game outcome.

use vstd::prelude::*;
use crate::board::{Board, Field, Mark};

verus! {

/// A line's three cell values, in the order of its index triple.
pub type Line = (Field, Field, Field);

/// A triple of board indices (0-based, row-major) naming one line.
pub type LinePos = (usize, usize, usize);

/// The fixed table of the eight winning lines of a 3x3 grid, in order:
/// the three rows (top, middle, bottom), then the three columns (left,
/// middle, right), then the two diagonals (main, anti).
pub open spec fn spec_win_line(i: int) -> LinePos {
    if i == 0 {
        (0usize, 1usize, 2usize)
    } else if i == 1 {
        (3usize, 4usize, 5usize)
    } else if i == 2 {
        (6usize, 7usize, 8usize)
    } else if i == 3 {
        (0usize, 3usize, 6usize)
    } else if i == 4 {
        (1usize, 4usize, 7usize)
    } else if i == 5 {
        (2usize, 5usize, 8usize)
    } else if i == 6 {
        (0usize, 4usize, 8usize)
    } else {
        (2usize, 4usize, 6usize)
    }
}

/// Returns the `i`-th winning-line index triple of the fixed table.
pub fn win_line(i: usize) -> (r: LinePos)
    requires
        i < 8,
    ensures
        r == spec_win_line(i as int),
        r.0 < 9,
        r.1 < 9,
        r.2 < 9,
{
    if i == 0 {
        (0, 1, 2)
    } else if i == 1 {
        (3, 4, 5)
    } else if i == 2 {
        (6, 7, 8)
    } else if i == 3 {
        (0, 3, 6)
    } else if i == 4 {
        (1, 4, 7)
    } else if i == 5 {
        (2, 5, 8)
    } else if i == 6 {
        (0, 4, 8)
    } else {
        (2, 4, 6)
    }
}

/// The three cells of `b` at the indices of `lp`, in order.
pub open spec fn spec_line(b: Seq<Field>, lp: LinePos) -> Line {
    (b[lp.0 as int], b[lp.1 as int], b[lp.2 as int])
}

impl Board {
    /// Pure projection: reads the three cells named by `line_indices`.
    pub fn line(&self, line_indices: LinePos) -> (r: Line)
        requires
            line_indices.0 < 9,
            line_indices.1 < 9,
            line_indices.2 < 9,
        ensures
            r == spec_line(self@, line_indices),
    {
        (self.fields[line_indices.0], self.fields[line_indices.1], self.fields[line_indices.2])
    }

    /// Extracts all eight lines of the board, in the fixed table order.
    pub fn split_lines(&self) -> (r: Vec<Line>)
        ensures
            r@.len() == 8,
            forall|i: int| 0 <= i < 8 ==> r@[i] == spec_line(self@, spec_win_line(i)),
    {
        let mut lines: Vec<Line> = Vec::new();
        let mut i: usize = 0;
        while i < 8
            invariant
                i <= 8,
                lines@.len() == i,
                forall|j: int| 0 <= j < i ==> lines@[j] == spec_line(self@, spec_win_line(j)),
            decreases 8 - i,
        {
            let lp = win_line(i);
            lines.push(self.line(lp));
            i = i + 1;
        }
        lines
    }
}

/// The outcome of evaluating a board position.
#[derive(Debug, Copy, Clone, PartialEq, Eq, Structural)]
pub enum Outcome {
    /// Some line is completed by the given mark (and no line by the other).
    Won(Mark),
    /// All nine cells are occupied and no line is completed.
    Draw,
    /// No line is completed and at least one cell is still empty.
    InProgress,
    /// Both marks have a completed line: a state unreachable by legal play.
    Invalid,
}

/// Line `i` of the fixed table is a win for `m`: all three of its cells
/// are occupied by `m`.
pub open spec fn line_wins(b: Seq<Field>, i: int, m: Mark) -> bool {
    let lp = spec_win_line(i);
    &&& b[lp.0 as int] == Field::M(m)
    &&& b[lp.1 as int] == Field::M(m)
    &&& b[lp.2 as int] == Field::M(m)
}

/// Some line of the eight is a win for `m`.
pub open spec fn wins(b: Seq<Field>, m: Mark) -> bool {
    exists|i: int| 0 <= i < 8 && line_wins(b, i, m)
}

/// Every one of the nine cells is occupied.
pub open spec fn board_full(b: Seq<Field>) -> bool {
    forall|i: int| 0 <= i < 9 ==> b[i] != Field::Empty
}

/// The outcome a board evaluates to: a double win is `Invalid`, a single
/// win is `Won`, a full board without a win is `Draw`, and anything else
/// is `InProgress`.
pub open spec fn spec_evaluate(b: Seq<Field>) -> Outcome {
    if wins(b, Mark::X) && wins(b, Mark::O) {
        Outcome::Invalid
    } else if wins(b, Mark::X) {
        Outcome::Won(Mark::X)
    } else if wins(b, Mark::O) {
        Outcome::Won(Mark::O)
    } else if board_full(b) {
        Outcome::Draw
    } else {
        Outcome::InProgress
    }
}

impl Board {
    /// All nine cells are occupied.
    pub fn is_full(&self) -> (r: bool)
        ensures
            r == board_full(self@),
    {
        let mut i: usize = 0;
        while i < 9
            invariant
                i <= 9,
                forall|j: int| 0 <= j < i ==> self@[j] != Field::Empty,
            decreases 9 - i,
        {
            if self.fields[i] == Field::Empty {
                return false;
            }
            i = i + 1;
        }
        true
    }

    /// Scans all eight lines in the fixed table order and reduces the board
    /// to its outcome.
    pub fn evaluate(&self) -> (r: Outcome)
        ensures
            r == spec_evaluate(self@),
    {
        let mut won_x = false;
        let mut won_o = false;
        let mut i: usize = 0;
        while i < 8
            invariant
                i <= 8,
                won_x == exists|j: int| 0 <= j < i && line_wins(self@, j, Mark::X),
                won_o == exists|j: int| 0 <= j < i && line_wins(self@, j, Mark::O),
            decreases 8 - i,
        {
            let (a, b, c) = self.line(win_line(i));
            if a == Field::M(Mark::X) && b == Field::M(Mark::X) && c == Field::M(Mark::X) {
                proof {
                    assert(line_wins(self@, i as int, Mark::X));
                }
                won_x = true;
            }
            if a == Field::M(Mark::O) && b == Field::M(Mark::O) && c == Field::M(Mark::O) {
                proof {
                    assert(line_wins(self@, i as int, Mark::O));
                }
                won_o = true;
            }
            i = i + 1;
        }
        if won_x && won_o {
            Outcome::Invalid
        } else if won_x {
            Outcome::Won(Mark::X)
        } else if won_o {
            Outcome::Won(Mark::O)
        } else if self.is_full() {
            Outcome::Draw
        } else {
            Outcome::InProgress
        }
    }
}

} // verus!

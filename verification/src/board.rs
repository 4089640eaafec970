//! The board model: marks, cells, and the immutable 3x3 board value.

use vstd::prelude::*;

verus! {

broadcast use vstd::array::group_array_axioms;

/// A player's mark: a cross or a circle.
#[derive(Debug, Copy, Clone, PartialEq, Eq, Structural)]
pub enum Mark {
    X,
    O,
}

impl Mark {
    /// The other mark: `X` and `O` form a 2-cycle.
    pub open spec fn spec_next(self) -> Mark {
        match self {
            Mark::X => Mark::O,
            Mark::O => Mark::X,
        }
    }

    /// Returns the other mark, used to alternate turns.
    pub fn next(&self) -> (r: Mark)
        ensures
            r == self.spec_next(),
    {
        match *self {
            Mark::X => Mark::O,
            Mark::O => Mark::X,
        }
    }
}

/// Taking the other mark twice returns the starting mark.
pub proof fn lemma_next_involution(m: Mark)
    ensures
        m.spec_next().spec_next() == m,
{
}

/// One cell of the board: empty, or occupied by a mark.
#[derive(Debug, Copy, Clone, PartialEq, Eq, Structural)]
pub enum Field {
    Empty,
    M(Mark),
}

/// The one error the board operations report: a position outside `[1, 9]`.
#[derive(Debug, Copy, Clone, PartialEq, Eq, Structural)]
pub enum GameError {
    InvalidPosition,
}

/// A 3x3 board: exactly 9 cells in row-major order (index = row * 3 + column).
///
/// A board is an immutable value: playing a move produces a new board and
/// never mutates the receiver.
#[derive(Debug, Copy, Clone, PartialEq, Eq)]
pub struct Board {
    pub fields: [Field; 9],
}

impl View for Board {
    type V = Seq<Field>;

    open spec fn view(&self) -> Seq<Field> {
        self.fields@
    }
}

/// A 1-based cell position; the cell at `position` has array index
/// `position - 1`.
pub type Position = usize;

/// A position is valid when it lies in the 1-based range `[1, 9]`.
pub open spec fn valid_position(position: Position) -> bool {
    1 <= position <= 9
}

impl Board {
    /// Returns the empty board: all 9 cells `Empty`.
    pub fn new() -> (b: Board)
        ensures
            forall|i: int| 0 <= i < 9 ==> b@[i] == Field::Empty,
    {
        Board { fields: [Field::Empty; 9] }
    }

    /// Places `mark` at the 1-based `position`, returning a new board and
    /// leaving the receiver unchanged. The prior content of the cell is
    /// overwritten; occupancy checking is the caller's responsibility.
    ///
    /// Positions:
    /// ```text
    /// 123
    /// 456
    /// 789
    /// ```
    pub fn play(&self, mark: Mark, position: Position) -> (r: Result<Board, GameError>)
        ensures
            valid_position(position) ==> (r matches Ok(b) && b@ == self@.update(
                position - 1,
                Field::M(mark),
            )),
            !valid_position(position) ==> r == Err::<Board, GameError>(GameError::InvalidPosition),
    {
        if position < 1 || position > 9 {
            return Err(GameError::InvalidPosition);
        }
        let mut new_fields = self.fields;  // Copies the array
        new_fields[position - 1] = Field::M(mark);
        Ok(Board { fields: new_fields })
    }

    /// Reads the cell at the 1-based `position` without mutating anything.
    pub fn cell_at(&self, position: Position) -> (r: Result<Field, GameError>)
        ensures
            valid_position(position) ==> r == Ok::<Field, GameError>(self@[position - 1]),
            !valid_position(position) ==> r == Err::<Field, GameError>(GameError::InvalidPosition),
    {
        if position < 1 || position > 9 {
            return Err(GameError::InvalidPosition);
        }
        Ok(self.fields[position - 1])
    }
}

/// Placement round-trips: after playing `mark` at a valid `position`, reading
/// the same position back yields that mark, and every other cell is unchanged.
pub proof fn lemma_play_round_trip(b: Board, mark: Mark, position: Position)
    requires
        valid_position(position),
    ensures
        b@.update(position - 1, Field::M(mark))[position - 1] == Field::M(mark),
        forall|i: int|
            0 <= i < 9 && i != position - 1 ==> b@.update(position - 1, Field::M(mark))[i] == b@[i],
{
}

} // verus!

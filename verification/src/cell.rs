//! One square of the board.

use vstd::prelude::*;

use crate::error::BoardError;
use crate::geometry::{
    coordinate_offset, file_to_letter, letter_of, offending_coordinate, square_rect,
    valid_coordinate, valid_square, Rect, BOARD_SIDE, CELL_SIZE,
};

verus! {

/// The place of a square on the board, as mathematics.
pub struct Square {
    pub rank: int,
    pub file: int,
}

/// A square of the board together with the rectangle that it covers.
///
/// A `Cell` always lies on the board, and its rectangle is always the one
/// that belongs to its rank and file.
#[derive(Clone, Copy, Debug, PartialEq, Eq, Structural)]
pub struct Cell {
    rank: u32,
    file: u32,
    rectangle: Rect,
}

impl View for Cell {
    type V = Square;

    closed spec fn view(&self) -> Square {
        Square { rank: self.rank as int, file: self.file as int }
    }
}

/// The rectangle of the square on `rank` and `file`.
pub fn cell_rect(rank: u32, file: u32) -> (r: Result<Rect, BoardError>)
    ensures
        match r {
            Ok(rect) => valid_square(rank as int, file as int) && rect == square_rect(
                rank as int,
                file as int,
            ),
            Err(e) => !valid_square(rank as int, file as int) && e
                == BoardError::InvalidCoordinate(offending_coordinate(rank, file)),
        },
{
    let y: u32 = match Cell::vec_as_coord(rank) {
        Ok(y) => y,
        Err(e) => {
            return Err(e);
        },
    };
    let x: u32 = match Cell::vec_as_coord(file) {
        Ok(x) => x,
        Err(e) => {
            return Err(e);
        },
    };
    Ok(Rect { x, y, w: CELL_SIZE, h: CELL_SIZE })
}

impl Cell {
    #[verifier::type_invariant]
    spec fn on_the_board(self) -> bool {
        &&& valid_coordinate(self.rank as int)
        &&& valid_coordinate(self.file as int)
        &&& self.rectangle == square_rect(self.rank as int, self.file as int)
    }

    /// The cell on `rank` and `file`.
    pub fn new(rank: u32, file: u32) -> (r: Result<Cell, BoardError>)
        ensures
            match r {
                Ok(cell) => valid_square(rank as int, file as int) && cell@ == (Square {
                    rank: rank as int,
                    file: file as int,
                }),
                Err(e) => !valid_square(rank as int, file as int) && e
                    == BoardError::InvalidCoordinate(offending_coordinate(rank, file)),
            },
    {
        match cell_rect(rank, file) {
            Ok(rectangle) => Ok(Cell { rank, file, rectangle }),
            Err(e) => Err(e),
        }
    }

    /// Distance of the `vec`-th rank, or file, from the edge of the board.
    pub fn vec_as_coord(vec: u32) -> (r: Result<u32, BoardError>)
        ensures
            match r {
                Ok(offset) => valid_coordinate(vec as int) && offset == coordinate_offset(
                    vec as int,
                ),
                Err(e) => !valid_coordinate(vec as int) && e == BoardError::InvalidCoordinate(vec),
            },
    {
        if 1 <= vec && vec <= BOARD_SIDE {
            Ok((vec - 1) * CELL_SIZE)
        } else {
            Err(BoardError::InvalidCoordinate(vec))
        }
    }

    /// The rank, from 1 to 8.
    pub fn rank(&self) -> (r: u32)
        ensures
            r == self@.rank,
            valid_coordinate(r as int),
    {
        proof {
            use_type_invariant(self);
        }
        self.rank
    }

    /// The file, from 1 to 8.
    pub fn file(&self) -> (r: u32)
        ensures
            r == self@.file,
            valid_coordinate(r as int),
    {
        proof {
            use_type_invariant(self);
        }
        self.file
    }

    /// The rectangle that the cell covers.
    pub fn rectangle(&self) -> (r: Rect)
        ensures
            r == square_rect(self@.rank, self@.file),
    {
        proof {
            use_type_invariant(self);
        }
        self.rectangle
    }

    /// The letter of the cell's file: `'a'` for the first up to `'h'` for the eighth.
    pub fn get_file_as_char(&self) -> (c: char)
        ensures
            c == letter_of(self@.file),
    {
        proof {
            use_type_invariant(self);
        }
        file_to_letter(self.file).unwrap()
    }

    /// The letter of the cell's rank, from the same table: `'a'` for the
    /// first up to `'h'` for the eighth.
    pub fn get_rank_as_char(&self) -> (c: char)
        ensures
            c == letter_of(self@.rank),
    {
        proof {
            use_type_invariant(self);
        }
        file_to_letter(self.rank).unwrap()
    }
}

} // verus!

//! Where the squares of the board lie on the board image.
//!
//! Ranks and files are counted from 1 to 8. Lengths are whole numbers of
//! half pixels, so that the side of a square, 87.5 pixels on a 700 pixel
//! image, is exact.

use vstd::prelude::*;

use crate::error::BoardError;

verus! {

/// How many length units make one pixel.
pub const UNITS_PER_PIXEL: u32 = 2;

/// Side of one square: 87.5 pixels, an eighth of the 700 pixel board image.
pub const CELL_SIZE: u32 = 175;

/// Number of ranks, and of files.
pub const BOARD_SIDE: u32 = 8;

/// An axis-aligned rectangle: the top left corner, the width and the height.
#[derive(Clone, Copy, Debug, PartialEq, Eq, Structural)]
pub struct Rect {
    pub x: u32,
    pub y: u32,
    pub w: u32,
    pub h: u32,
}

/// A rank or a file that exists on the board.
pub open spec fn valid_coordinate(n: int) -> bool {
    1 <= n <= BOARD_SIDE
}

/// A rank and a file that name a square of the board.
pub open spec fn valid_square(rank: int, file: int) -> bool {
    valid_coordinate(rank) && valid_coordinate(file)
}

/// Of a rank and a file that name no square, the one at fault: the rank
/// if it is off the board, else the file.
pub open spec fn offending_coordinate(rank: u32, file: u32) -> u32 {
    if valid_coordinate(rank as int) {
        file
    } else {
        rank
    }
}

/// Distance of the `n`-th rank, or file, from the board's top, or left, edge.
pub open spec fn coordinate_offset(n: int) -> int {
    (n - 1) * CELL_SIZE
}

/// The rectangle that the square on `rank` and `file` covers.
pub open spec fn square_rect(rank: int, file: int) -> Rect {
    Rect {
        x: coordinate_offset(file) as u32,
        y: coordinate_offset(rank) as u32,
        w: CELL_SIZE,
        h: CELL_SIZE,
    }
}

/// The letter that names the `n`-th rank or file: `'a'` for 1 up to `'h'` for 8.
pub open spec fn letter_of(n: int) -> char {
    ('a' as int + n - 1) as char
}

/// The rank or file that the letter `c` names: 1 for `'a'` up to 8 for `'h'`.
pub open spec fn coordinate_of(c: char) -> int {
    c as int - 'a' as int + 1
}

/// Names a rank or a file by its letter.
///
/// Whether the letter stands for a rank or for a file is the caller's
/// choice: the table is the same for both.
pub fn file_to_letter(n: u32) -> (r: Result<char, BoardError>)
    ensures
        match r {
            Ok(c) => valid_coordinate(n as int) && c == letter_of(n as int),
            Err(e) => !valid_coordinate(n as int) && e == BoardError::InvalidCoordinate(n),
        },
{
    match n {
        1 => Ok('a'),
        2 => Ok('b'),
        3 => Ok('c'),
        4 => Ok('d'),
        5 => Ok('e'),
        6 => Ok('f'),
        7 => Ok('g'),
        8 => Ok('h'),
        _ => Err(BoardError::InvalidCoordinate(n)),
    }
}

/// A coordinate is found again from its letter, which is one of `'a'` to
/// `'h'`: no two ranks, or files, share a letter.
pub proof fn letter_names_one_coordinate(n: int)
    requires
        valid_coordinate(n),
    ensures
        'a' <= letter_of(n) <= 'h',
        coordinate_of(letter_of(n)) == n,
{
}

/// Each letter from `'a'` to `'h'` is the letter of a coordinate on the
/// board: none of them is left unused.
pub proof fn coordinate_bears_its_letter(c: char)
    requires
        'a' <= c <= 'h',
    ensures
        valid_coordinate(coordinate_of(c)),
        letter_of(coordinate_of(c)) == c,
{
}

} // verus!

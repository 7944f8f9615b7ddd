//! The board: its image and its sixty-four cells.

use vstd::prelude::*;

use crate::cell::{Cell, Square};
use crate::error::BoardError;
use crate::geometry::{valid_coordinate, Rect, BOARD_SIDE, UNITS_PER_PIXEL};
use crate::window::{window_for, FullscreenType, WindowMode, WINDOW_MARGIN};

verus! {

/// A board image that was loaded and decoded: the handle under which the
/// renderer knows it, and its size in pixels.
#[derive(Debug)]
pub struct BoardImage<I> {
    pub handle: I,
    pub width: u16,
    pub height: u16,
}

/// The board image and the cells that lie over it.
///
/// There are always sixty-four cells, one for each square, rank after rank
/// and, within a rank, file after file.
#[derive(Debug)]
pub struct ChessBoard<I> {
    board_image: I,
    board_dimensions: Rect,
    board_data: Vec<Cell>,
}

/// A board, as mathematics: the image, its size in pixels, and the
/// squares of the cells in the order in which they are kept.
pub struct BoardView<I> {
    pub image: I,
    pub width: u16,
    pub height: u16,
    pub cells: Seq<Square>,
}

/// The squares of a board in the order in which its cells are kept.
pub open spec fn grid() -> Seq<Square> {
    Seq::new(64, |i: int| Square { rank: i / 8 + 1, file: i % 8 + 1 })
}

/// The place in `grid()` of the square on `rank` and `file`.
pub open spec fn grid_index(rank: int, file: int) -> int {
    (rank - 1) * 8 + (file - 1)
}

/// The cells of `cells` lie on the squares of `on`, one by one.
pub open spec fn lie_on(cells: Seq<Cell>, on: Seq<Square>) -> bool {
    &&& cells.len() == on.len()
    &&& forall|i: int| 0 <= i < cells.len() ==> (#[trigger] cells[i])@ == on[i]
}

/// The rectangle that an image of `width` by `height` pixels fills.
pub open spec fn image_rect(width: u16, height: u16) -> Rect {
    Rect {
        x: 0,
        y: 0,
        w: (width * UNITS_PER_PIXEL) as u32,
        h: (height * UNITS_PER_PIXEL) as u32,
    }
}

impl<I> BoardView<I> {
    /// The rectangle that the board image fills.
    pub open spec fn dimensions(self) -> Rect {
        image_rect(self.width, self.height)
    }
}

impl<I> View for ChessBoard<I> {
    type V = BoardView<I>;

    closed spec fn view(&self) -> BoardView<I> {
        BoardView {
            image: self.board_image,
            width: (self.board_dimensions.w / UNITS_PER_PIXEL) as u16,
            height: (self.board_dimensions.h / UNITS_PER_PIXEL) as u16,
            cells: Seq::new(self.board_data@.len(), |i: int| self.board_data@[i]@),
        }
    }
}

impl<I> ChessBoard<I> {
    #[verifier::type_invariant]
    spec fn complete(self) -> bool {
        &&& lie_on(self.board_data@, grid())
        &&& self.board_dimensions == self@.dimensions()
    }

    /// Builds the board from what loading its image gave; `None` stands for
    /// an image that is missing or could not be decoded.
    pub fn new(loaded: Option<BoardImage<I>>) -> (r: Result<Self, BoardError>)
        ensures
            match loaded {
                Some(image) => r matches Ok(board) && board@ == (BoardView {
                    image: image.handle,
                    width: image.width,
                    height: image.height,
                    cells: grid(),
                }),
                None => r matches Err(e) && e == BoardError::ResourceLoad,
            },
    {
        let image = match loaded {
            Some(image) => image,
            None => {
                return Err(BoardError::ResourceLoad);
            },
        };
        let board_dimensions = Rect {
            x: 0,
            y: 0,
            w: image.width as u32 * UNITS_PER_PIXEL,
            h: image.height as u32 * UNITS_PER_PIXEL,
        };
        let mut board_data: Vec<Cell> = Vec::new();
        let mut rank: u32 = 1;
        while rank <= BOARD_SIDE
            invariant
                1 <= rank <= 9,
                board_data@.len() == (rank - 1) * 8,
                forall|k: int| 0 <= k < board_data@.len() ==> board_data@[k]@ == grid()[k],
            decreases 9 - rank,
        {
            let mut file: u32 = 1;
            while file <= BOARD_SIDE
                invariant
                    1 <= rank <= 8,
                    1 <= file <= 9,
                    board_data@.len() == (rank - 1) * 8 + (file - 1),
                    forall|k: int| 0 <= k < board_data@.len() ==> board_data@[k]@ == grid()[k],
                decreases 9 - file,
            {
                match Cell::new(rank, file) {
                    Ok(cell) => board_data.push(cell),
                    // Not taken: the rank and the file stay on the board.
                    Err(e) => {
                        return Err(e);
                    },
                }
                file += 1;
            }
            rank += 1;
        }
        let board = ChessBoard { board_image: image.handle, board_dimensions, board_data };
        assert(board@.cells =~= grid());
        Ok(board)
    }

    /// The handle of the board image.
    pub fn board_image(&self) -> (r: &I)
        ensures
            *r == self@.image,
    {
        &self.board_image
    }

    /// The rectangle that the board image fills, from the origin.
    pub fn board_dimensions(&self) -> (r: Rect)
        ensures
            r == self@.dimensions(),
    {
        proof {
            use_type_invariant(self);
        }
        self.board_dimensions
    }

    /// The sixty-four cells, rank after rank.
    pub fn board_data(&self) -> (r: &Vec<Cell>)
        ensures
            r@.len() == 64,
            lie_on(r@, self@.cells),
            self@.cells == grid(),
    {
        proof {
            use_type_invariant(self);
        }
        &self.board_data
    }

    /// The window to open for this board.
    pub fn window_mode(&self) -> (r: WindowMode)
        ensures
            r == window_for(self@.dimensions()),
    {
        proof {
            use_type_invariant(self);
        }
        let width: u32 = self.board_dimensions.w + WINDOW_MARGIN;
        let height: u32 = self.board_dimensions.h + WINDOW_MARGIN;
        WindowMode {
            width,
            height,
            maximized: false,
            fullscreen_type: FullscreenType::Windowed,
            borderless: false,
            min_width: width,
            min_height: height,
            max_width: 0,
            max_height: 0,
            resizable: true,
        }
    }
}

/// The grid holds sixty-four squares, each of them on the board.
pub proof fn grid_squares_are_on_the_board(i: int)
    requires
        0 <= i < 64,
    ensures
        grid().len() == 64,
        valid_coordinate(grid()[i].rank),
        valid_coordinate(grid()[i].file),
{
}

/// No square is in the grid twice.
pub proof fn grid_has_no_duplicates(i: int, j: int)
    requires
        0 <= i < grid().len(),
        0 <= j < grid().len(),
        i != j,
    ensures
        grid()[i] != grid()[j],
{
}

/// Every square of the board is in the grid, at the place that its rank
/// and file give.
pub proof fn grid_covers_the_board(rank: int, file: int)
    requires
        valid_coordinate(rank),
        valid_coordinate(file),
    ensures
        0 <= grid_index(rank, file) < grid().len(),
        grid()[grid_index(rank, file)] == (Square { rank, file }),
{
}

/// The grid is in rank-major order: of two squares the one on the lower
/// rank comes first, and within a rank the one on the lower file.
pub proof fn grid_is_rank_major(i: int, j: int)
    requires
        0 <= i < grid().len(),
        0 <= j < grid().len(),
    ensures
        i < j <==> grid()[i].rank < grid()[j].rank || (grid()[i].rank == grid()[j].rank
            && grid()[i].file < grid()[j].file),
{
}

} // verus!

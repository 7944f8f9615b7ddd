//! Geometry and model of a static 8 by 8 chessboard that is drawn over a board image.
//!
//! The library places the sixty-four cells of the board on the image and
//! describes the window that shows it. Loading the image and drawing are
//! the caller's part: the library is handed what loading gave, and hands
//! out rectangles and window settings.

pub mod board;
pub mod cell;
pub mod error;
pub mod geometry;
pub mod window;

pub use crate::board::{BoardImage, ChessBoard};
pub use crate::cell::{cell_rect, Cell};
pub use crate::error::BoardError;
pub use crate::geometry::{file_to_letter, Rect, BOARD_SIDE, CELL_SIZE, UNITS_PER_PIXEL};
pub use crate::window::{FullscreenType, WindowMode, WindowSettings, BOARD_OFFSET, WINDOW_MARGIN};

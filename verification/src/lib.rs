//! The rules of an interactive chessboard: the 8×8 layout of squares, the
//! colour each square shows, and the click-driven selection and relocation
//! of pieces.
//!
//! The crate holds no rendering, windowing or input code. A host hands it
//! plain values once per tick (the scene objects it knows as squares and
//! pieces, the object under the pointer, whether the button went down) and
//! applies what it gets back.

pub mod coloring;
pub mod entity;
pub mod materials;
pub mod pieces;
pub mod selection;
pub mod square;

pub use coloring::{color_squares, square_color};
pub use entity::EntityId;
pub use materials::{SquareColor, SquareMaterials};
pub use pieces::{move_piece, piece_on, square_of, Piece};
pub use selection::{hit_square, select_square, selection_state, SelectedPiece, SelectedSquare, SelectionState};
pub use square::{create_board, Square, BOARD_SIZE, SQUARE_COUNT};

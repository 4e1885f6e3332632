//! Board squares: coordinates, parity colouring and the initial layout.

use crate::materials::SquareColor;
use vstd::prelude::*;

verus! {

/// Number of files, and of ranks, on the board.
pub const BOARD_SIZE: u8 = 8;

/// Number of squares on the board.
pub const SQUARE_COUNT: usize = 64;

/// One cell of the board, named by its file `x` and rank `y`.
#[derive(Clone, Copy, Debug, PartialEq, Eq, Structural)]
pub struct Square {
    pub x: u8,
    pub y: u8,
}

/// Parity rule of the board: a cell is light exactly when `x + y + 1` is even.
pub open spec fn spec_is_white(x: int, y: int) -> bool {
    (x + y + 1) % 2 == 0
}

/// The colour a cell shows at rest.
pub open spec fn spec_base_color(x: int, y: int) -> SquareColor {
    if spec_is_white(x, y) {
        SquareColor::White
    } else {
        SquareColor::Black
    }
}

impl Square {
    /// Whether the square lies on the 8×8 board.
    pub open spec fn on_board(&self) -> bool {
        self.x < BOARD_SIZE && self.y < BOARD_SIZE
    }

    /// The square at file `x` and rank `y`, if that is a cell of the board.
    pub fn new(x: u8, y: u8) -> (square: Option<Square>)
        ensures
            square == if x < BOARD_SIZE && y < BOARD_SIZE {
                Some(Square { x, y })
            } else {
                None::<Square>
            },
    {
        if x < BOARD_SIZE && y < BOARD_SIZE {
            Some(Square { x, y })
        } else {
            None
        }
    }

    /// Whether the square is a light one.
    pub fn is_white(&self) -> (white: bool)
        ensures
            white == spec_is_white(self.x as int, self.y as int),
    {
        (self.x as u16 + self.y as u16 + 1) % 2 == 0
    }

    /// The colour the square shows when it is neither hovered nor selected.
    pub fn base_color(&self) -> (color: SquareColor)
        ensures
            color == spec_base_color(self.x as int, self.y as int),
    {
        if self.is_white() {
            SquareColor::White
        } else {
            SquareColor::Black
        }
    }

    /// Where the square lies in the scene, in whole units: file along the
    /// first axis, height zero, rank along the third.
    pub fn world_position(&self) -> (position: (u8, u8, u8))
        ensures
            position == (self.x, 0u8, self.y),
    {
        (self.x, 0, self.y)
    }
}

/// The board as a sequence: the cell of file `x` and rank `y` stands at index
/// `8 * x + y`, so files come one after another and ranks run within a file.
pub open spec fn spec_board() -> Seq<Square> {
    Seq::new(64, |k: int| Square { x: (k / 8) as u8, y: (k % 8) as u8 })
}

/// Index of a cell in the board sequence.
pub open spec fn spec_square_index(x: int, y: int) -> int {
    8 * x + y
}

/// Lays out the board: all 64 squares, file by file.
pub fn create_board() -> (board: Vec<Square>)
    ensures
        board@ == spec_board(),
        board@.len() == SQUARE_COUNT,
        forall|k: int| 0 <= k < board@.len() ==> (#[trigger] board@[k]).on_board(),
{
    let mut board: Vec<Square> = Vec::new();
    let mut i: u8 = 0;
    while i < BOARD_SIZE
        invariant
            i <= BOARD_SIZE,
            board@.len() == 8 * i,
            forall|k: int| 0 <= k < board@.len() ==> #[trigger] board@[k] == spec_board()[k],
        decreases BOARD_SIZE - i,
    {
        let mut j: u8 = 0;
        while j < BOARD_SIZE
            invariant
                i < BOARD_SIZE,
                j <= BOARD_SIZE,
                board@.len() == 8 * i + j,
                forall|k: int| 0 <= k < board@.len() ==> #[trigger] board@[k] == spec_board()[k],
            decreases BOARD_SIZE - j,
        {
            board.push(Square { x: i, y: j });
            j = j + 1;
        }
        i = i + 1;
    }
    board
}

/// Every cell of the 8×8 grid occurs on the board, at its own index and at
/// no other.
pub proof fn lemma_board_has_each_square_once(x: u8, y: u8)
    requires
        x < BOARD_SIZE,
        y < BOARD_SIZE,
    ensures
        0 <= spec_square_index(x as int, y as int) < spec_board().len(),
        spec_board()[spec_square_index(x as int, y as int)] == (Square { x, y }),
        forall|k: int|
            0 <= k < spec_board().len() && #[trigger] spec_board()[k] == (Square { x, y })
                ==> k == spec_square_index(x as int, y as int),
{
}

} // verus!

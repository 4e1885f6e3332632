//! The four display colours of a square and the table of their handles.

use vstd::prelude::*;

verus! {

/// What a square shows in one frame.
#[derive(Clone, Copy, Debug, PartialEq, Eq, Structural)]
pub enum SquareColor {
    /// The pointer is over the square.
    Highlight,
    /// The square was the last one clicked.
    Selected,
    /// A light square at rest.
    White,
    /// A dark square at rest.
    Black,
}

/// One handle per display colour, shared by all squares.
///
/// `H` is whatever the host's renderer uses to name a material.
pub struct SquareMaterials<H> {
    pub highlight_color: H,
    pub selected_color: H,
    pub white_color: H,
    pub black_color: H,
}

impl<H> SquareMaterials<H> {
    /// The handle that stands for `color`.
    pub open spec fn spec_material(&self, color: SquareColor) -> H {
        match color {
            SquareColor::Highlight => self.highlight_color,
            SquareColor::Selected => self.selected_color,
            SquareColor::White => self.white_color,
            SquareColor::Black => self.black_color,
        }
    }

    /// Looks up the handle that stands for `color`.
    pub fn material(&self, color: SquareColor) -> (handle: &H)
        ensures
            *handle == self.spec_material(color),
    {
        match color {
            SquareColor::Highlight => &self.highlight_color,
            SquareColor::Selected => &self.selected_color,
            SquareColor::White => &self.white_color,
            SquareColor::Black => &self.black_color,
        }
    }
}

} // verus!

//! The colour each square shows in a frame.
//!
//! Four rules, the first that applies wins: the square under the pointer is
//! highlighted; the selected square shows as selected; a light square is
//! white; every other square is black.

use crate::entity::EntityId;
use crate::materials::{SquareColor, SquareMaterials};
use crate::selection::SelectedSquare;
use crate::square::{spec_base_color, Square};
use vstd::prelude::*;

verus! {

/// The colour of the square `square`, registered under `entity`, while
/// `top_entity` is under the pointer and `selected` is the selected square.
pub open spec fn spec_square_color(
    entity: EntityId,
    square: Square,
    top_entity: Option<EntityId>,
    selected: Option<EntityId>,
) -> SquareColor {
    if top_entity == Some(entity) {
        SquareColor::Highlight
    } else if selected == Some(entity) {
        SquareColor::Selected
    } else {
        spec_base_color(square.x as int, square.y as int)
    }
}

/// Chooses the colour of one square for this frame.
pub fn square_color(
    entity: EntityId,
    square: &Square,
    top_entity: Option<EntityId>,
    selected_square: &SelectedSquare,
) -> (color: SquareColor)
    ensures
        color == spec_square_color(entity, *square, top_entity, selected_square.entity),
        top_entity == Some(entity) ==> color == SquareColor::Highlight,
{
    if top_entity == Some(entity) {
        SquareColor::Highlight
    } else if selected_square.entity == Some(entity) {
        SquareColor::Selected
    } else {
        square.base_color()
    }
}

/// Chooses, for every registered square, the material it shows in this
/// frame. The result runs parallel to `squares`.
pub fn color_squares<'a, H>(
    selected_square: &SelectedSquare,
    materials: &'a SquareMaterials<H>,
    squares: &Vec<(EntityId, Square)>,
    top_entity: Option<EntityId>,
) -> (shown: Vec<&'a H>)
    ensures
        shown@.len() == squares@.len(),
        forall|i: int|
            0 <= i < squares@.len() ==> *(#[trigger] shown@[i]) == materials.spec_material(
                spec_square_color(squares@[i].0, squares@[i].1, top_entity, selected_square.entity),
            ),
{
    let mut shown: Vec<&'a H> = Vec::new();
    let mut i: usize = 0;
    while i < squares.len()
        invariant
            i <= squares@.len(),
            shown@.len() == i,
            forall|j: int|
                0 <= j < i ==> *(#[trigger] shown@[j]) == materials.spec_material(
                    spec_square_color(squares@[j].0, squares@[j].1, top_entity, selected_square.entity),
                ),
        decreases squares@.len() - i,
    {
        let color = square_color(squares[i].0, &squares[i].1, top_entity, selected_square);
        shown.push(materials.material(color));
        i = i + 1;
    }
    shown
}

/// The rules are ranked and leave no square without a colour: the pointer
/// outranks the selection, also on the selected square itself, and the
/// selection outranks the parity of the square.
pub proof fn lemma_color_priority(
    entity: EntityId,
    square: Square,
    top_entity: Option<EntityId>,
    selected: Option<EntityId>,
)
    ensures
        top_entity == Some(entity) ==> spec_square_color(entity, square, top_entity, selected)
            == SquareColor::Highlight,
        top_entity == Some(entity) && selected == Some(entity) ==> spec_square_color(
            entity,
            square,
            top_entity,
            selected,
        ) != SquareColor::Selected,
        top_entity != Some(entity) && selected == Some(entity) ==> spec_square_color(
            entity,
            square,
            top_entity,
            selected,
        ) == SquareColor::Selected,
        top_entity != Some(entity) && selected != Some(entity) ==> spec_square_color(
            entity,
            square,
            top_entity,
            selected,
        ) == spec_base_color(square.x as int, square.y as int),
{
}

} // verus!

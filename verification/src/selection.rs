//! Click-driven selection: which square and which piece are picked, and
//! what one press of the button does to them.

use crate::entity::EntityId;
use crate::pieces::{
    is_first_piece_on, lemma_first_piece_exists, lemma_first_piece_unique, move_piece, piece_on,
    spec_move_piece, spec_piece_on, spec_square_of, square_of, Piece,
};
use crate::square::Square;
use vstd::prelude::*;

verus! {

/// The square the player last clicked, if any.
#[derive(Clone, Copy, Debug, PartialEq, Eq)]
pub struct SelectedSquare {
    pub entity: Option<EntityId>,
}

/// The piece picked up for a pending move, if any.
#[derive(Clone, Copy, Debug, PartialEq, Eq)]
pub struct SelectedPiece {
    pub entity: Option<EntityId>,
}

impl Default for SelectedSquare {
    fn default() -> (selected: SelectedSquare)
        ensures
            selected.entity is None,
    {
        SelectedSquare { entity: None }
    }
}

impl Default for SelectedPiece {
    fn default() -> (selected: SelectedPiece)
        ensures
            selected.entity is None,
    {
        SelectedPiece { entity: None }
    }
}

/// Where the selection stands between two clicks.
#[derive(Clone, Copy, Debug, PartialEq, Eq, Structural)]
pub enum SelectionState {
    /// Nothing is selected.
    Idle,
    /// A square is selected and no piece is picked up.
    SquareSelected,
    /// A piece is picked up and awaits its destination.
    PieceSelected,
}

/// The state that the two selections amount to.
pub open spec fn spec_selection_state(selected_square: SelectedSquare, selected_piece: SelectedPiece) -> SelectionState {
    if selected_piece.entity is Some {
        SelectionState::PieceSelected
    } else if selected_square.entity is Some {
        SelectionState::SquareSelected
    } else {
        SelectionState::Idle
    }
}

/// A piece is only ever picked up through a selected square.
pub open spec fn selection_consistent(selected_square: SelectedSquare, selected_piece: SelectedPiece) -> bool {
    selected_piece.entity is Some ==> selected_square.entity is Some
}

/// The square under the pointer: the top-hit object, provided that it is a
/// registered square.
pub open spec fn spec_hit_square(squares: Seq<(EntityId, Square)>, top_entity: Option<EntityId>) -> Option<
    (EntityId, Square),
> {
    match top_entity {
        Some(entity) => match spec_square_of(squares, entity) {
            Some(square) => Some((entity, square)),
            None => None,
        },
        None => None,
    }
}

/// What one tick does to the selections and to the pieces.
///
/// Without a fresh press nothing changes. A press that misses the board
/// clears both selections. A press on a square with a piece picked up puts
/// that piece on the square and clears both selections. A press on a square
/// with no piece picked up selects the square, and with it the first piece
/// standing there, if one does.
pub open spec fn spec_select_square(
    just_pressed: bool,
    selected_square: SelectedSquare,
    selected_piece: SelectedPiece,
    squares: Seq<(EntityId, Square)>,
    pieces: Seq<(EntityId, Piece)>,
    top_entity: Option<EntityId>,
) -> (SelectedSquare, SelectedPiece, Seq<(EntityId, Piece)>) {
    if !just_pressed {
        (selected_square, selected_piece, pieces)
    } else {
        match spec_hit_square(squares, top_entity) {
            None => (SelectedSquare { entity: None }, SelectedPiece { entity: None }, pieces),
            Some((square_entity, square)) => match selected_piece.entity {
                Some(piece_entity) => (
                    SelectedSquare { entity: None },
                    SelectedPiece { entity: None },
                    spec_move_piece(pieces, piece_entity, square.x, square.y),
                ),
                None => (
                    SelectedSquare { entity: Some(square_entity) },
                    SelectedPiece { entity: spec_piece_on(pieces, square.x, square.y) },
                    pieces,
                ),
            },
        }
    }
}

/// Names the state that the two selections amount to.
pub fn selection_state(selected_square: &SelectedSquare, selected_piece: &SelectedPiece) -> (state: SelectionState)
    ensures
        state == spec_selection_state(*selected_square, *selected_piece),
{
    if selected_piece.entity.is_some() {
        SelectionState::PieceSelected
    } else if selected_square.entity.is_some() {
        SelectionState::SquareSelected
    } else {
        SelectionState::Idle
    }
}

/// Resolves the top-hit object to a square of the board.
pub fn hit_square(squares: &Vec<(EntityId, Square)>, top_entity: Option<EntityId>) -> (hit: Option<
    (EntityId, Square),
>)
    ensures
        hit == spec_hit_square(squares@, top_entity),
{
    match top_entity {
        Some(entity) => match square_of(squares, entity) {
            Some(square) => Some((entity, square)),
            None => None,
        },
        None => None,
    }
}

/// Runs one tick of the selection: `just_pressed` says whether the button
/// went down in this tick, `top_entity` names the object under the pointer.
pub fn select_square(
    just_pressed: bool,
    selected_square: &mut SelectedSquare,
    selected_piece: &mut SelectedPiece,
    squares: &Vec<(EntityId, Square)>,
    pieces: &mut Vec<(EntityId, Piece)>,
    top_entity: Option<EntityId>,
)
    ensures
        (*final(selected_square), *final(selected_piece), final(pieces)@) == spec_select_square(
            just_pressed,
            *old(selected_square),
            *old(selected_piece),
            squares@,
            old(pieces)@,
            top_entity,
        ),
        selection_consistent(*old(selected_square), *old(selected_piece)) ==> selection_consistent(
            *final(selected_square),
            *final(selected_piece),
        ),
{
    if !just_pressed {
        return ;
    }
    match hit_square(squares, top_entity) {
        Some((square_entity, square)) => {
            selected_square.entity = Some(square_entity);
            match selected_piece.entity {
                Some(piece_entity) => {
                    move_piece(pieces, piece_entity, square.x, square.y);
                    selected_square.entity = None;
                    selected_piece.entity = None;
                },
                None => {
                    selected_piece.entity = piece_on(pieces, square.x, square.y);
                },
            }
        },
        None => {
            selected_square.entity = None;
            selected_piece.entity = None;
        },
    }
}

/// A press on a square where a piece stands, with no piece picked up, picks
/// up the first piece standing there and selects the square; no piece moves.
/// Where only one piece stands on the square, that is the one picked up.
pub proof fn lemma_press_on_piece_selects_it(
    selected_square: SelectedSquare,
    selected_piece: SelectedPiece,
    squares: Seq<(EntityId, Square)>,
    pieces: Seq<(EntityId, Piece)>,
    top_entity: Option<EntityId>,
    k: int,
)
    requires
        selected_piece.entity is None,
        0 <= k < pieces.len(),
        spec_hit_square(squares, top_entity) matches Some((_, square)) && pieces[k].1.stands_on(
            square.x,
            square.y,
        ),
    ensures
        ({
            let (square_entity, square) = spec_hit_square(squares, top_entity)->0;
            let (after_square, after_piece, after_pieces) = spec_select_square(
                true,
                selected_square,
                selected_piece,
                squares,
                pieces,
                top_entity,
            );
            &&& after_pieces == pieces
            &&& after_square.entity == Some(square_entity)
            &&& after_piece.entity is Some
            &&& exists|i: int|
                0 <= i <= k && is_first_piece_on(pieces, i, square.x, square.y) && after_piece.entity
                    == Some(pieces[i].0)
            &&& (forall|j: int| 0 <= j < k ==> !(#[trigger] pieces[j]).1.stands_on(square.x, square.y))
                ==> after_piece.entity == Some(pieces[k].0)
            &&& spec_selection_state(after_square, after_piece) == SelectionState::PieceSelected
        }),
{
    let (square_entity, square) = spec_hit_square(squares, top_entity)->0;
    lemma_first_piece_exists(pieces, k, square.x, square.y);
    let first = choose|i: int| is_first_piece_on(pieces, i, square.x, square.y);
    assert(0 <= first <= k) by {
        if k < first {
            assert(!pieces[k].1.stands_on(square.x, square.y));
        }
    }
    if forall|j: int| 0 <= j < k ==> !(#[trigger] pieces[j]).1.stands_on(square.x, square.y) {
        assert(is_first_piece_on(pieces, k, square.x, square.y));
        lemma_first_piece_unique(pieces, first, k, square.x, square.y);
    }
}

/// A press on any square while a piece is picked up puts that piece on the
/// square, whatever stands there, leaves every other piece where it was,
/// and clears both selections.
pub proof fn lemma_press_with_piece_moves_it(
    selected_square: SelectedSquare,
    selected_piece: SelectedPiece,
    squares: Seq<(EntityId, Square)>,
    pieces: Seq<(EntityId, Piece)>,
    top_entity: Option<EntityId>,
)
    requires
        selected_piece.entity is Some,
        spec_hit_square(squares, top_entity) is Some,
    ensures
        ({
            let (square_entity, square) = spec_hit_square(squares, top_entity)->0;
            let piece_entity = selected_piece.entity->0;
            let (after_square, after_piece, after_pieces) = spec_select_square(
                true,
                selected_square,
                selected_piece,
                squares,
                pieces,
                top_entity,
            );
            &&& after_square.entity is None
            &&& after_piece.entity is None
            &&& spec_selection_state(after_square, after_piece) == SelectionState::Idle
            &&& after_pieces.len() == pieces.len()
            &&& forall|i: int|
                0 <= i < pieces.len() && (#[trigger] pieces[i]).0 == piece_entity ==> after_pieces[i] == (
                    piece_entity,
                    Piece { x: square.x, y: square.y },
                )
            &&& forall|i: int|
                0 <= i < pieces.len() && (#[trigger] pieces[i]).0 != piece_entity ==> after_pieces[i]
                    == pieces[i]
        }),
{
}

/// A press that misses the board clears both selections, whatever they
/// were, and moves nothing.
pub proof fn lemma_miss_clears_selection(
    selected_square: SelectedSquare,
    selected_piece: SelectedPiece,
    squares: Seq<(EntityId, Square)>,
    pieces: Seq<(EntityId, Piece)>,
    top_entity: Option<EntityId>,
)
    requires
        spec_hit_square(squares, top_entity) is None,
    ensures
        ({
            let (after_square, after_piece, after_pieces) = spec_select_square(
                true,
                selected_square,
                selected_piece,
                squares,
                pieces,
                top_entity,
            );
            &&& after_square.entity is None
            &&& after_piece.entity is None
            &&& spec_selection_state(after_square, after_piece) == SelectionState::Idle
            &&& after_pieces == pieces
        }),
{
}

/// Whatever a press finds, it leaves a piece picked up only together with
/// a selected square.
pub proof fn lemma_press_leaves_selection_consistent(
    selected_square: SelectedSquare,
    selected_piece: SelectedPiece,
    squares: Seq<(EntityId, Square)>,
    pieces: Seq<(EntityId, Piece)>,
    top_entity: Option<EntityId>,
)
    ensures
        ({
            let (after_square, after_piece, after_pieces) = spec_select_square(
                true,
                selected_square,
                selected_piece,
                squares,
                pieces,
                top_entity,
            );
            selection_consistent(after_square, after_piece)
        }),
{
}

/// A piece stays picked up for one press only: the next press, wherever it
/// lands, leaves nothing selected.
pub proof fn lemma_press_with_piece_returns_to_idle(
    selected_square: SelectedSquare,
    selected_piece: SelectedPiece,
    squares: Seq<(EntityId, Square)>,
    pieces: Seq<(EntityId, Piece)>,
    top_entity: Option<EntityId>,
)
    requires
        selected_piece.entity is Some,
    ensures
        ({
            let (after_square, after_piece, after_pieces) = spec_select_square(
                true,
                selected_square,
                selected_piece,
                squares,
                pieces,
                top_entity,
            );
            spec_selection_state(after_square, after_piece) == SelectionState::Idle
        }),
{
}

} // verus!

//! The host's registries of squares and pieces, as the board logic reads
//! and writes them.
//!
//! A registry is a list of entries in the order the host walks them; each
//! entry pairs the identity of a scene object with what stands under it.
//! The host keeps identities distinct. Nothing here depends on that: where
//! an identity occurs twice, a lookup takes the first entry and a move
//! applies to every entry that carries it.

use crate::entity::EntityId;
use crate::square::Square;
use vstd::prelude::*;

verus! {

/// A piece, as far as the board is concerned: where it stands.
#[derive(Clone, Copy, Debug, PartialEq, Eq, Structural)]
pub struct Piece {
    pub x: u8,
    pub y: u8,
}

impl Piece {
    /// Whether the piece stands on the cell of file `x` and rank `y`.
    pub open spec fn stands_on(&self, x: u8, y: u8) -> bool {
        self.x == x && self.y == y
    }
}

/// Whether entry `i` is the first of `squares` that carries `entity`.
pub open spec fn is_first_square_of(squares: Seq<(EntityId, Square)>, i: int, entity: EntityId) -> bool {
    &&& 0 <= i < squares.len()
    &&& squares[i].0 == entity
    &&& forall|j: int| 0 <= j < i ==> (#[trigger] squares[j]).0 != entity
}

/// The square registered under `entity`, if the object is a square at all.
pub open spec fn spec_square_of(squares: Seq<(EntityId, Square)>, entity: EntityId) -> Option<Square> {
    if exists|i: int| is_first_square_of(squares, i, entity) {
        Some(squares[choose|i: int| is_first_square_of(squares, i, entity)].1)
    } else {
        None
    }
}

/// Whether entry `i` is the first of `pieces` that stands on `(x, y)`.
pub open spec fn is_first_piece_on(pieces: Seq<(EntityId, Piece)>, i: int, x: u8, y: u8) -> bool {
    &&& 0 <= i < pieces.len()
    &&& pieces[i].1.stands_on(x, y)
    &&& forall|j: int| 0 <= j < i ==> !(#[trigger] pieces[j]).1.stands_on(x, y)
}

/// The first piece, in registry order, that stands on `(x, y)`.
pub open spec fn spec_piece_on(pieces: Seq<(EntityId, Piece)>, x: u8, y: u8) -> Option<EntityId> {
    if exists|i: int| is_first_piece_on(pieces, i, x, y) {
        Some(pieces[choose|i: int| is_first_piece_on(pieces, i, x, y)].0)
    } else {
        None
    }
}

/// The registry after the piece `entity` has been put on `(x, y)`: every
/// entry under that identity stands there, every other entry is as before.
pub open spec fn spec_move_piece(pieces: Seq<(EntityId, Piece)>, entity: EntityId, x: u8, y: u8) -> Seq<
    (EntityId, Piece),
> {
    Seq::new(
        pieces.len(),
        |i: int|
            if pieces[i].0 == entity {
                (entity, Piece { x, y })
            } else {
                pieces[i]
            },
    )
}

/// At most one entry of a registry is the first that carries an identity.
pub proof fn lemma_first_square_unique(squares: Seq<(EntityId, Square)>, i: int, j: int, entity: EntityId)
    requires
        is_first_square_of(squares, i, entity),
        is_first_square_of(squares, j, entity),
    ensures
        i == j,
{
    if i < j {
        assert(squares[i].0 != entity);
    } else if j < i {
        assert(squares[j].0 != entity);
    }
}

/// The lookup of an identity yields the square of the first entry that
/// carries it.
pub proof fn lemma_square_of_first(squares: Seq<(EntityId, Square)>, i: int, entity: EntityId)
    requires
        is_first_square_of(squares, i, entity),
    ensures
        spec_square_of(squares, entity) == Some(squares[i].1),
{
    let chosen = choose|k: int| is_first_square_of(squares, k, entity);
    lemma_first_square_unique(squares, i, chosen, entity);
}

/// The lookup of an identity that no entry carries yields nothing.
pub proof fn lemma_square_of_absent(squares: Seq<(EntityId, Square)>, entity: EntityId)
    requires
        forall|j: int| 0 <= j < squares.len() ==> (#[trigger] squares[j]).0 != entity,
    ensures
        spec_square_of(squares, entity) is None,
{
}

/// At most one entry of a registry is the first that stands on a cell.
pub proof fn lemma_first_piece_unique(pieces: Seq<(EntityId, Piece)>, i: int, j: int, x: u8, y: u8)
    requires
        is_first_piece_on(pieces, i, x, y),
        is_first_piece_on(pieces, j, x, y),
    ensures
        i == j,
{
    if i < j {
        assert(!pieces[i].1.stands_on(x, y));
    } else if j < i {
        assert(!pieces[j].1.stands_on(x, y));
    }
}

/// The search of a cell yields the first piece that stands on it.
pub proof fn lemma_piece_on_first(pieces: Seq<(EntityId, Piece)>, i: int, x: u8, y: u8)
    requires
        is_first_piece_on(pieces, i, x, y),
    ensures
        spec_piece_on(pieces, x, y) == Some(pieces[i].0),
{
    let chosen = choose|k: int| is_first_piece_on(pieces, k, x, y);
    lemma_first_piece_unique(pieces, i, chosen, x, y);
}

/// The search of a cell on which no piece stands yields nothing.
pub proof fn lemma_piece_on_absent(pieces: Seq<(EntityId, Piece)>, x: u8, y: u8)
    requires
        forall|j: int| 0 <= j < pieces.len() ==> !(#[trigger] pieces[j]).1.stands_on(x, y),
    ensures
        spec_piece_on(pieces, x, y) is None,
{
}

/// Where any piece stands on a cell, some piece is the first to do so.
pub proof fn lemma_first_piece_exists(pieces: Seq<(EntityId, Piece)>, k: int, x: u8, y: u8)
    requires
        0 <= k < pieces.len(),
        pieces[k].1.stands_on(x, y),
    ensures
        exists|i: int| is_first_piece_on(pieces, i, x, y),
    decreases k,
{
    if forall|j: int| 0 <= j < k ==> !(#[trigger] pieces[j]).1.stands_on(x, y) {
        assert(is_first_piece_on(pieces, k, x, y));
    } else {
        let j = choose|j: int| 0 <= j < k && (#[trigger] pieces[j]).1.stands_on(x, y);
        lemma_first_piece_exists(pieces, j, x, y);
    }
}

/// Looks `entity` up among the squares.
pub fn square_of(squares: &Vec<(EntityId, Square)>, entity: EntityId) -> (found: Option<Square>)
    ensures
        found == spec_square_of(squares@, entity),
        found is Some <==> exists|i: int| 0 <= i < squares@.len() && (#[trigger] squares@[i]).0 == entity,
{
    let mut i: usize = 0;
    while i < squares.len()
        invariant
            i <= squares@.len(),
            forall|j: int| 0 <= j < i ==> (#[trigger] squares@[j]).0 != entity,
        decreases squares@.len() - i,
    {
        if squares[i].0 == entity {
            proof {
                lemma_square_of_first(squares@, i as int, entity);
            }
            return Some(squares[i].1);
        }
        i = i + 1;
    }
    None
}

/// Finds the first piece that stands on `(x, y)`.
pub fn piece_on(pieces: &Vec<(EntityId, Piece)>, x: u8, y: u8) -> (found: Option<EntityId>)
    ensures
        found == spec_piece_on(pieces@, x, y),
        found is Some <==> exists|i: int| 0 <= i < pieces@.len() && (#[trigger] pieces@[i]).1.stands_on(x, y),
{
    let mut i: usize = 0;
    while i < pieces.len()
        invariant
            i <= pieces@.len(),
            forall|j: int| 0 <= j < i ==> !(#[trigger] pieces@[j]).1.stands_on(x, y),
        decreases pieces@.len() - i,
    {
        if pieces[i].1.x == x && pieces[i].1.y == y {
            proof {
                lemma_piece_on_first(pieces@, i as int, x, y);
            }
            return Some(pieces[i].0);
        }
        i = i + 1;
    }
    None
}

/// Puts the piece `entity` on `(x, y)`. A registry without that piece is
/// left as it is.
pub fn move_piece(pieces: &mut Vec<(EntityId, Piece)>, entity: EntityId, x: u8, y: u8)
    ensures
        final(pieces)@ == spec_move_piece(old(pieces)@, entity, x, y),
{
    let mut i: usize = 0;
    while i < pieces.len()
        invariant
            i <= pieces@.len(),
            pieces@.len() == old(pieces)@.len(),
            forall|j: int| 0 <= j < i ==> #[trigger] pieces@[j] == spec_move_piece(old(pieces)@, entity, x, y)[j],
            forall|j: int| i <= j < pieces@.len() ==> #[trigger] pieces@[j] == old(pieces)@[j],
        decreases pieces@.len() - i,
    {
        if pieces[i].0 == entity {
            pieces.set(i, (entity, Piece { x, y }));
        }
        i = i + 1;
    }
}

} // verus!

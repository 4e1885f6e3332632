use chess_board::{
    create_board, hit_square, move_piece, piece_on, select_square, selection_state, square_of,
    EntityId, Piece, SelectedPiece, SelectedSquare, SelectionState, Square,
};

fn squares() -> Vec<(EntityId, Square)> {
    let mut squares = Vec::new();
    for (k, square) in create_board().into_iter().enumerate() {
        squares.push((EntityId(100 + k as u64), square));
    }
    squares
}

fn square_entity(x: u8, y: u8) -> EntityId {
    EntityId(100 + 8 * x as u64 + y as u64)
}

fn pieces() -> Vec<(EntityId, Piece)> {
    vec![
        (EntityId(1), Piece { x: 3, y: 1 }),
        (EntityId(2), Piece { x: 0, y: 0 }),
        (EntityId(3), Piece { x: 7, y: 6 }),
    ]
}

fn idle() -> (SelectedSquare, SelectedPiece) {
    (SelectedSquare::default(), SelectedPiece::default())
}

#[test]
fn selections_start_empty() {
    let (square, piece) = idle();
    assert_eq!(square.entity, None);
    assert_eq!(piece.entity, None);
    assert_eq!(selection_state(&square, &piece), SelectionState::Idle);
}

#[test]
fn selection_state_names_each_state() {
    let none_square = SelectedSquare { entity: None };
    let some_square = SelectedSquare { entity: Some(EntityId(4)) };
    let none_piece = SelectedPiece { entity: None };
    let some_piece = SelectedPiece { entity: Some(EntityId(5)) };
    assert_eq!(selection_state(&none_square, &none_piece), SelectionState::Idle);
    assert_eq!(selection_state(&some_square, &none_piece), SelectionState::SquareSelected);
    assert_eq!(selection_state(&some_square, &some_piece), SelectionState::PieceSelected);
    assert_eq!(selection_state(&none_square, &some_piece), SelectionState::PieceSelected);
}

#[test]
fn square_of_finds_registered_squares_only() {
    let squares = squares();
    assert_eq!(square_of(&squares, square_entity(3, 1)), Some(Square { x: 3, y: 1 }));
    assert_eq!(square_of(&squares, square_entity(7, 7)), Some(Square { x: 7, y: 7 }));
    assert_eq!(square_of(&squares, EntityId(1)), None);
    assert_eq!(square_of(&Vec::new(), square_entity(0, 0)), None);
}

#[test]
fn square_of_takes_the_first_entry() {
    let squares = vec![
        (EntityId(9), Square { x: 1, y: 2 }),
        (EntityId(9), Square { x: 5, y: 6 }),
    ];
    assert_eq!(square_of(&squares, EntityId(9)), Some(Square { x: 1, y: 2 }));
}

#[test]
fn piece_on_finds_the_first_piece_there() {
    let mut pieces = pieces();
    assert_eq!(piece_on(&pieces, 3, 1), Some(EntityId(1)));
    assert_eq!(piece_on(&pieces, 7, 6), Some(EntityId(3)));
    assert_eq!(piece_on(&pieces, 1, 3), None);
    assert_eq!(piece_on(&pieces, 4, 4), None);
    pieces.push((EntityId(8), Piece { x: 0, y: 0 }));
    assert_eq!(piece_on(&pieces, 0, 0), Some(EntityId(2)));
    assert_eq!(piece_on(&Vec::new(), 0, 0), None);
}

#[test]
fn move_piece_moves_only_the_named_piece() {
    let mut pieces = pieces();
    move_piece(&mut pieces, EntityId(2), 5, 4);
    assert_eq!(
        pieces,
        vec![
            (EntityId(1), Piece { x: 3, y: 1 }),
            (EntityId(2), Piece { x: 5, y: 4 }),
            (EntityId(3), Piece { x: 7, y: 6 }),
        ]
    );
}

#[test]
fn move_piece_of_an_unknown_piece_changes_nothing() {
    let mut pieces = pieces();
    move_piece(&mut pieces, EntityId(77), 5, 4);
    assert_eq!(pieces, self::pieces());
}

#[test]
fn hit_square_resolves_the_top_entity() {
    let squares = squares();
    assert_eq!(
        hit_square(&squares, Some(square_entity(2, 5))),
        Some((square_entity(2, 5), Square { x: 2, y: 5 }))
    );
    assert_eq!(hit_square(&squares, Some(EntityId(1))), None);
    assert_eq!(hit_square(&squares, None), None);
}

#[test]
fn without_a_press_nothing_changes() {
    let squares = squares();
    let mut pieces = pieces();
    let mut square = SelectedSquare { entity: Some(square_entity(3, 1)) };
    let mut piece = SelectedPiece { entity: Some(EntityId(1)) };
    select_square(false, &mut square, &mut piece, &squares, &mut pieces, Some(square_entity(4, 4)));
    assert_eq!(square.entity, Some(square_entity(3, 1)));
    assert_eq!(piece.entity, Some(EntityId(1)));
    assert_eq!(pieces, self::pieces());
    select_square(false, &mut square, &mut piece, &squares, &mut pieces, None);
    assert_eq!(square.entity, Some(square_entity(3, 1)));
    assert_eq!(piece.entity, Some(EntityId(1)));
    assert_eq!(pieces, self::pieces());
}

#[test]
fn press_on_a_piece_while_idle_selects_it_without_moving() {
    let squares = squares();
    let mut pieces = pieces();
    let (mut square, mut piece) = idle();
    select_square(true, &mut square, &mut piece, &squares, &mut pieces, Some(square_entity(7, 6)));
    assert_eq!(square.entity, Some(square_entity(7, 6)));
    assert_eq!(piece.entity, Some(EntityId(3)));
    assert_eq!(pieces, self::pieces());
    assert_eq!(selection_state(&square, &piece), SelectionState::PieceSelected);
}

#[test]
fn press_on_an_empty_square_while_idle_selects_the_square_only() {
    let squares = squares();
    let mut pieces = pieces();
    let (mut square, mut piece) = idle();
    select_square(true, &mut square, &mut piece, &squares, &mut pieces, Some(square_entity(4, 4)));
    assert_eq!(square.entity, Some(square_entity(4, 4)));
    assert_eq!(piece.entity, None);
    assert_eq!(pieces, self::pieces());
    assert_eq!(selection_state(&square, &piece), SelectionState::SquareSelected);
}

#[test]
fn press_after_an_empty_square_is_a_fresh_selection() {
    let squares = squares();
    let mut pieces = pieces();
    let (mut square, mut piece) = idle();
    select_square(true, &mut square, &mut piece, &squares, &mut pieces, Some(square_entity(4, 4)));
    select_square(true, &mut square, &mut piece, &squares, &mut pieces, Some(square_entity(0, 0)));
    assert_eq!(square.entity, Some(square_entity(0, 0)));
    assert_eq!(piece.entity, Some(EntityId(2)));
    assert_eq!(pieces, self::pieces());
}

#[test]
fn press_with_a_piece_selected_moves_it_and_clears() {
    let squares = squares();
    let mut pieces = pieces();
    let mut square = SelectedSquare { entity: Some(square_entity(3, 1)) };
    let mut piece = SelectedPiece { entity: Some(EntityId(1)) };
    select_square(true, &mut square, &mut piece, &squares, &mut pieces, Some(square_entity(3, 3)));
    assert_eq!(square.entity, None);
    assert_eq!(piece.entity, None);
    assert_eq!(
        pieces,
        vec![
            (EntityId(1), Piece { x: 3, y: 3 }),
            (EntityId(2), Piece { x: 0, y: 0 }),
            (EntityId(3), Piece { x: 7, y: 6 }),
        ]
    );
    assert_eq!(selection_state(&square, &piece), SelectionState::Idle);
}

#[test]
fn move_onto_an_occupied_square_succeeds() {
    let squares = squares();
    let mut pieces = pieces();
    let mut square = SelectedSquare { entity: Some(square_entity(3, 1)) };
    let mut piece = SelectedPiece { entity: Some(EntityId(1)) };
    select_square(true, &mut square, &mut piece, &squares, &mut pieces, Some(square_entity(0, 0)));
    assert_eq!(square.entity, None);
    assert_eq!(piece.entity, None);
    assert_eq!(pieces[0], (EntityId(1), Piece { x: 0, y: 0 }));
    assert_eq!(pieces[1], (EntityId(2), Piece { x: 0, y: 0 }));
    assert_eq!(pieces[2], (EntityId(3), Piece { x: 7, y: 6 }));
}

#[test]
fn move_to_own_square_is_a_no_op() {
    let squares = squares();
    let mut pieces = pieces();
    let (mut square, mut piece) = idle();
    select_square(true, &mut square, &mut piece, &squares, &mut pieces, Some(square_entity(3, 1)));
    assert_eq!(square.entity, Some(square_entity(3, 1)));
    assert_eq!(piece.entity, Some(EntityId(1)));
    select_square(true, &mut square, &mut piece, &squares, &mut pieces, Some(square_entity(3, 1)));
    assert_eq!(pieces[0], (EntityId(1), Piece { x: 3, y: 1 }));
    assert_eq!(pieces, self::pieces());
    assert_eq!(square.entity, None);
    assert_eq!(piece.entity, None);
}

#[test]
fn select_then_move_across_the_board() {
    let squares = squares();
    let mut pieces = pieces();
    let (mut square, mut piece) = idle();
    select_square(true, &mut square, &mut piece, &squares, &mut pieces, Some(square_entity(0, 0)));
    select_square(false, &mut square, &mut piece, &squares, &mut pieces, Some(square_entity(5, 5)));
    select_square(true, &mut square, &mut piece, &squares, &mut pieces, Some(square_entity(7, 7)));
    assert_eq!(pieces[1], (EntityId(2), Piece { x: 7, y: 7 }));
    assert_eq!(pieces[0], (EntityId(1), Piece { x: 3, y: 1 }));
    assert_eq!(pieces[2], (EntityId(3), Piece { x: 7, y: 6 }));
    assert_eq!(selection_state(&square, &piece), SelectionState::Idle);
}

#[test]
fn miss_clears_from_idle() {
    let squares = squares();
    let mut pieces = pieces();
    let (mut square, mut piece) = idle();
    select_square(true, &mut square, &mut piece, &squares, &mut pieces, None);
    assert_eq!(square.entity, None);
    assert_eq!(piece.entity, None);
    assert_eq!(pieces, self::pieces());
}

#[test]
fn miss_clears_a_selected_square() {
    let squares = squares();
    let mut pieces = pieces();
    let mut square = SelectedSquare { entity: Some(square_entity(4, 4)) };
    let mut piece = SelectedPiece { entity: None };
    select_square(true, &mut square, &mut piece, &squares, &mut pieces, None);
    assert_eq!(square.entity, None);
    assert_eq!(piece.entity, None);
    assert_eq!(pieces, self::pieces());
}

#[test]
fn miss_clears_a_selected_piece_without_moving_it() {
    let squares = squares();
    let mut pieces = pieces();
    let mut square = SelectedSquare { entity: Some(square_entity(3, 1)) };
    let mut piece = SelectedPiece { entity: Some(EntityId(1)) };
    select_square(true, &mut square, &mut piece, &squares, &mut pieces, None);
    assert_eq!(square.entity, None);
    assert_eq!(piece.entity, None);
    assert_eq!(pieces, self::pieces());
    assert_eq!(selection_state(&square, &piece), SelectionState::Idle);
}

#[test]
fn press_on_an_object_that_is_no_square_is_a_miss() {
    let squares = squares();
    let mut pieces = pieces();
    let mut square = SelectedSquare { entity: Some(square_entity(3, 1)) };
    let mut piece = SelectedPiece { entity: Some(EntityId(1)) };
    select_square(true, &mut square, &mut piece, &squares, &mut pieces, Some(EntityId(2)));
    assert_eq!(square.entity, None);
    assert_eq!(piece.entity, None);
    assert_eq!(pieces, self::pieces());
}

#[test]
fn press_with_a_vanished_piece_clears_and_moves_nothing() {
    let squares = squares();
    let mut pieces = pieces();
    let mut square = SelectedSquare { entity: Some(square_entity(3, 1)) };
    let mut piece = SelectedPiece { entity: Some(EntityId(55)) };
    select_square(true, &mut square, &mut piece, &squares, &mut pieces, Some(square_entity(6, 6)));
    assert_eq!(square.entity, None);
    assert_eq!(piece.entity, None);
    assert_eq!(pieces, self::pieces());
}

#[test]
fn press_where_two_pieces_stand_takes_the_first() {
    let squares = squares();
    let mut pieces = vec![
        (EntityId(1), Piece { x: 2, y: 2 }),
        (EntityId(2), Piece { x: 5, y: 5 }),
        (EntityId(3), Piece { x: 5, y: 5 }),
    ];
    let (mut square, mut piece) = idle();
    select_square(true, &mut square, &mut piece, &squares, &mut pieces, Some(square_entity(5, 5)));
    assert_eq!(piece.entity, Some(EntityId(2)));
    assert_eq!(pieces[1], (EntityId(2), Piece { x: 5, y: 5 }));
    assert_eq!(pieces[2], (EntityId(3), Piece { x: 5, y: 5 }));
}

#[test]
fn press_with_no_pieces_at_all_selects_the_square() {
    let squares = squares();
    let mut pieces: Vec<(EntityId, Piece)> = Vec::new();
    let (mut square, mut piece) = idle();
    select_square(true, &mut square, &mut piece, &squares, &mut pieces, Some(square_entity(1, 1)));
    assert_eq!(square.entity, Some(square_entity(1, 1)));
    assert_eq!(piece.entity, None);
    assert!(pieces.is_empty());
}

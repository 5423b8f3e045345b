use std::str::FromStr;

use chess_engine::actions::Actions;
use chess_engine::actions::CastleAction;
use chess_engine::actions::EnPassant;
use chess_engine::actions::MoveAction;
use chess_engine::actions::PromoteAction;
use chess_engine::actions::TakeAction;
use chess_engine::board::Board;
use chess_engine::board::InnerBoard;
use chess_engine::board::PieceBoard;
use chess_engine::errors::BoardError;
use chess_engine::history::History;
use chess_engine::pieces::Color;
use chess_engine::pieces::PieceType;
use chess_engine::position::BoardPosition;

fn pos(s: &str) -> BoardPosition {
    BoardPosition::from_str(s).expect("a valid square name")
}

#[test]
fn creating_invalid() {
    let inner_board = InnerBoard::new_inner_board([PieceBoard::new_bishop(); 6]);
    assert!(!inner_board.validate());
}

#[test]
fn testing_move_action() {
    let mut inner_board = InnerBoard::default();
    println!("hello????");
    let res = inner_board.perform_actions(Actions::Move(MoveAction::new(
        BoardPosition::from_str("e2").expect("this is a normal move"),
        BoardPosition::from_str("e4").expect("this is a normal move"),
        PieceType::Pawn,
        Color::White,
    )));

    assert!(res.is_ok(), "{:?}", res.unwrap_err())
}

#[test]
fn starting_position_counts() {
    let board = InnerBoard::default();
    assert_eq!(board.count_all_pieces(), 32);
    assert_eq!(board.count_all_white_pieces(), 16);
    assert_eq!(board.count_all_black_pieces(), 16);
    assert_eq!(board.get_all_occupied_squares().count_ones(), 32);
    assert!(board.validate());
}

#[test]
fn move_piece_from_empty_square_fails() {
    let mut layer = PieceBoard::new_pawn();
    let res = layer.move_piece(&Color::White, &pos("e4"), &pos("e5"));
    assert_eq!(res.unwrap_err(), BoardError::PieceMissing);
}

#[test]
fn move_piece_onto_occupied_square_fails() {
    let mut layer = PieceBoard::new_pawn();
    let res = layer.move_piece(&Color::White, &pos("e2"), &pos("d2"));
    assert_eq!(res.unwrap_err(), BoardError::PieceWhereMoving);
}

#[test]
fn pawn_double_push_scenario() {
    let mut board = Board::new();
    let res = board.perform_actions(Actions::Move(MoveAction::new(
        pos("e2"),
        pos("e4"),
        PieceType::Pawn,
        Color::White,
    )));
    assert!(res.is_ok());
    assert!(!board.has_piece(&pos("e2")));
    assert!(board.has_piece(&pos("e4")));
    assert!(board.is_piece_color(&pos("e4"), Color::White));
    assert_eq!(
        board.inner_board.what_piece_on_square(&pos("e4")),
        Some(PieceType::Pawn)
    );
    assert!(board.validate_current_board());
    assert_eq!(board.turn, Color::Black);
    assert_eq!(board.history.0.len(), 1);
    assert!(board.validate_history());
}

#[test]
fn bare_move_onto_enemy_piece_fails() {
    // A piece cannot simply move onto an occupied square, even an
    // enemy one: the capture has to go through a take.
    let mut board = InnerBoard::default();
    let res = board.perform_actions(Actions::Move(MoveAction::new(
        pos("a1"),
        pos("a7"),
        PieceType::Rook,
        Color::White,
    )));
    assert_eq!(res.unwrap_err(), BoardError::PieceWhereMoving);
}

#[test]
fn take_of_own_color_fails_with_same_color() {
    let mut board = InnerBoard::default();
    let res = board.perform_actions(Actions::Take(
        TakeAction::new(PieceType::Pawn, Color::White, pos("e2")),
        MoveAction::new(pos("d1"), pos("e2"), PieceType::Queen, Color::White),
    ));
    assert_eq!(res.unwrap_err(), BoardError::SameColor);
}

#[test]
fn take_then_move_captures() {
    let mut board = Board::new();
    for (f, t, k, c) in [
        ("e2", "e4", PieceType::Pawn, Color::White),
        ("d7", "d5", PieceType::Pawn, Color::Black),
    ] {
        assert!(board
            .perform_actions(Actions::Move(MoveAction::new(pos(f), pos(t), k, c)))
            .is_ok());
    }
    let res = board.perform_actions(Actions::Take(
        TakeAction::new(PieceType::Pawn, Color::Black, pos("d5")),
        MoveAction::new(pos("e4"), pos("d5"), PieceType::Pawn, Color::White),
    ));
    assert!(res.is_ok(), "{:?}", res);
    assert!(board.is_piece_color(&pos("d5"), Color::White));
    assert!(!board.has_piece(&pos("e4")));
    assert_eq!(board.inner_board.count_all_black_pieces(), 15);
    assert!(board.validate_current_board());
    assert!(board.validate_history());
}

#[test]
fn promotion_composite() {
    // A lone white pawn on b7 promotes to a queen on b8.
    let empty = PieceBoard::new_custom(0, 0);
    let pawn_b7 = PieceBoard::new_custom(1 << 49, 0);
    let inner = InnerBoard::new_inner_board([pawn_b7, empty, empty, empty, empty, empty]);
    let mut board = Board {
        inner_board: inner,
        turn: Color::White,
        history: History(Vec::new()),
    };
    let res = board.perform_actions(Actions::Promote(
        MoveAction::new(pos("b7"), pos("b8"), PieceType::Pawn, Color::White),
        PromoteAction::new(PieceType::Pawn, pos("b8"), PieceType::Queen, Color::White),
    ));
    assert!(res.is_ok(), "{:?}", res);
    assert_eq!(
        board.inner_board.what_piece_on_square(&pos("b8")),
        Some(PieceType::Queen)
    );
    assert!(!board.has_piece(&pos("b7")));
    assert!(board.validate_current_board());
}

#[test]
fn composite_failure_leaves_board_untouched() {
    let mut board = InnerBoard::default();
    let before = board;
    // The take names a square with no black piece, so nothing at all
    // may change, though a bare e2-e4 move alone would have worked.
    let res = board.perform_actions(Actions::Take(
        TakeAction::new(PieceType::Pawn, Color::Black, pos("e4")),
        MoveAction::new(pos("e2"), pos("e4"), PieceType::Pawn, Color::White),
    ));
    assert_eq!(res.unwrap_err(), BoardError::PieceMissing);
    assert_eq!(board, before);
}

#[test]
fn castle_short_moves_king_and_rook() {
    let empty = PieceBoard::new_custom(0, 0);
    let rooks = PieceBoard::new_custom(0x81, 0);
    let kings = PieceBoard::new_custom(0x10, 0);
    let inner = InnerBoard::new_inner_board([empty, rooks, empty, empty, kings, empty]);
    let mut board = Board {
        inner_board: inner,
        turn: Color::White,
        history: History(Vec::new()),
    };
    let res = board.perform_actions(Actions::Castle(CastleAction::Short(Color::White)));
    assert!(res.is_ok(), "{:?}", res);
    assert_eq!(
        board.inner_board.what_piece_on_square(&pos("g1")),
        Some(PieceType::King)
    );
    assert_eq!(
        board.inner_board.what_piece_on_square(&pos("f1")),
        Some(PieceType::Rook)
    );
    assert!(!board.has_piece(&pos("e1")));
    assert!(!board.has_piece(&pos("h1")));
    assert!(board.validate_current_board());
}

#[test]
fn castle_through_check_refused() {
    let empty = PieceBoard::new_custom(0, 0);
    let rooks_white_h1_black_f8 = PieceBoard::new_custom(0x81, 1 << 61);
    let kings = PieceBoard::new_custom(0x10, 0);
    let inner = InnerBoard::new_inner_board([
        empty,
        rooks_white_h1_black_f8,
        empty,
        empty,
        kings,
        empty,
    ]);
    let mut board = Board {
        inner_board: inner,
        turn: Color::White,
        history: History(Vec::new()),
    };
    // The black rook on f8 bears on f1, the square the king crosses.
    let res = board.perform_actions(Actions::Castle(CastleAction::Short(Color::White)));
    assert_eq!(res.unwrap_err(), BoardError::PieceNotInPlay);
}

#[test]
fn castle_after_king_moved_refused() {
    let mut board = Board::new();
    for (f, t, k, c) in [
        ("e2", "e4", PieceType::Pawn, Color::White),
        ("e7", "e5", PieceType::Pawn, Color::Black),
        ("g1", "f3", PieceType::Knight, Color::White),
        ("b8", "c6", PieceType::Knight, Color::Black),
        ("f1", "e2", PieceType::Bishop, Color::White),
        ("g8", "f6", PieceType::Knight, Color::Black),
        ("e1", "f1", PieceType::King, Color::White),
        ("f6", "g8", PieceType::Knight, Color::Black),
        ("f1", "e1", PieceType::King, Color::White),
        ("g8", "f6", PieceType::Knight, Color::Black),
    ] {
        let res = board.perform_actions(Actions::Move(MoveAction::new(pos(f), pos(t), k, c)));
        assert!(res.is_ok(), "{:?}", res);
    }
    // The king is back home and the path is clear, but it has moved.
    let res = board.perform_actions(Actions::Castle(CastleAction::Short(Color::White)));
    assert_eq!(res.unwrap_err(), BoardError::PieceNotInPlay);
}

#[test]
fn en_passant_capture() {
    let mut board = Board::new();
    for (f, t, k, c) in [
        ("e2", "e4", PieceType::Pawn, Color::White),
        ("a7", "a6", PieceType::Pawn, Color::Black),
        ("e4", "e5", PieceType::Pawn, Color::White),
        ("d7", "d5", PieceType::Pawn, Color::Black),
    ] {
        assert!(board
            .perform_actions(Actions::Move(MoveAction::new(pos(f), pos(t), k, c)))
            .is_ok());
    }
    let res = board.perform_actions(Actions::EnPassant(EnPassant::new(pos("e5"), pos("d6"))));
    assert!(res.is_ok(), "{:?}", res);
    assert!(!board.has_piece(&pos("d5")));
    assert!(!board.has_piece(&pos("e5")));
    assert_eq!(
        board.inner_board.what_piece_on_square(&pos("d6")),
        Some(PieceType::Pawn)
    );
    assert!(board.is_piece_color(&pos("d6"), Color::White));
    assert!(board.validate_current_board());
    assert!(board.validate_history());
}

#[test]
fn en_passant_too_late_refused() {
    let mut board = Board::new();
    for (f, t, k, c) in [
        ("e2", "e4", PieceType::Pawn, Color::White),
        ("a7", "a6", PieceType::Pawn, Color::Black),
        ("e4", "e5", PieceType::Pawn, Color::White),
        ("d7", "d5", PieceType::Pawn, Color::Black),
        ("h2", "h3", PieceType::Pawn, Color::White),
        ("a6", "a5", PieceType::Pawn, Color::Black),
    ] {
        assert!(board
            .perform_actions(Actions::Move(MoveAction::new(pos(f), pos(t), k, c)))
            .is_ok());
    }
    // A move has passed since the double push, so the capture is gone.
    let res = board.perform_actions(Actions::EnPassant(EnPassant::new(pos("e5"), pos("d6"))));
    assert_eq!(res.unwrap_err(), BoardError::PieceNotInPlay);
}

#[test]
fn en_passant_shows_up_in_movement_options() {
    let tables = chess_engine::tables::MoveTables::new();
    let mut board = Board::new();
    for (f, t, k, c) in [
        ("e2", "e4", PieceType::Pawn, Color::White),
        ("a7", "a6", PieceType::Pawn, Color::Black),
        ("e4", "e5", PieceType::Pawn, Color::White),
        ("d7", "d5", PieceType::Pawn, Color::Black),
    ] {
        assert!(board
            .perform_actions(Actions::Move(MoveAction::new(pos(f), pos(t), k, c)))
            .is_ok());
    }
    let options = board.get_movement_options(Color::White, &tables);
    let ep: Vec<&Actions> = options
        .iter()
        .filter(|a| matches!(a, Actions::EnPassant(_)))
        .collect();
    assert_eq!(ep.len(), 1);
    assert_eq!(
        *ep[0],
        Actions::EnPassant(EnPassant::new(pos("e5"), pos("d6")))
    );
    // Before the double push there was no such capture.
    let fresh = Board::new();
    let fresh_options = fresh.get_movement_options(Color::White, &tables);
    assert!(fresh_options
        .iter()
        .all(|a| !matches!(a, Actions::EnPassant(_))));
}

#[test]
fn layer_queries() {
    let board = InnerBoard::default();
    assert_eq!(board.what_piece_on_square(&pos("d1")), Some(PieceType::Queen));
    assert_eq!(board.what_color_is_on_square(&pos("d8")), Some(Color::Black));
    assert_eq!(board.what_piece_on_square(&pos("e5")), None);
    assert_eq!(board.what_color_is_on_square(&pos("e5")), None);
    assert!(board.has(&pos("a1")));
    assert!(board.has_white_piece(&pos("a1")));
    assert!(board.has_black_piece(&pos("a8")));
    assert_eq!(board.get_all_white_squares().get_copied_inner(), 0xFFFF);
}

#[test]
fn insert_and_remove_check_their_slot() {
    let mut layer = PieceBoard::new_queen();
    assert_eq!(
        layer
            .insert_piece_with_color(&pos("d1"), &Color::White)
            .unwrap_err(),
        BoardError::PieceMissing
    );
    assert!(layer.insert_piece_with_color(&pos("d5"), &Color::White).is_ok());
    assert!(layer.remove_piece_with_color(&pos("d5"), &Color::White).is_ok());
    assert_eq!(
        layer
            .remove_piece_with_color(&pos("d5"), &Color::White)
            .unwrap_err(),
        BoardError::PieceMissing
    );
}

#[test]
fn history_appends_in_order() {
    let mut h = History(Vec::new());
    let a = Actions::Move(MoveAction::new(pos("e2"), pos("e4"), PieceType::Pawn, Color::White));
    let b = Actions::Move(MoveAction::new(pos("e7"), pos("e5"), PieceType::Pawn, Color::Black));
    h.add(a);
    h.add(b);
    assert_eq!(h.0.len(), 2);
    assert_eq!(h.0[0], a);
    assert_eq!(h.0[1], b);
}

#[test]
fn color_flip_is_involutive() {
    assert_eq!(Color::White.flip(), Color::Black);
    assert_eq!(Color::Black.flip(), Color::White);
    assert_eq!(Color::White.flip().flip(), Color::White);
}

#[test]
fn piece_type_indexing() {
    for i in 0..6 {
        let k = PieceType::from_index(i).unwrap();
        assert_eq!(k.index(), i);
    }
    assert!(PieceType::from_index(6).is_none());
    assert!(PieceType::Queen.is_sliding());
    assert!(!PieceType::Knight.is_sliding());
}

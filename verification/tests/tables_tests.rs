use std::str::FromStr;

use chess_engine::actions::Actions;
use chess_engine::board::InnerBoard;
use chess_engine::pieces::Color;
use chess_engine::pieces::Knight;
use chess_engine::pieces::PieceType;
use chess_engine::position::BoardPosition;
use chess_engine::tables::MoveTables;

fn sq(s: &str) -> u64 {
    BoardPosition::from_str(s).unwrap().to_num()
}

#[test]
fn king_table_corner_and_center() {
    let tables = MoveTables::new();
    let king = tables.table(PieceType::King, Color::White);
    assert_eq!(king.masks(sq("a1")).0.count_ones(), 3);
    assert_eq!(king.masks(sq("d4")).0.count_ones(), 8);
}

#[test]
fn knight_table_at_b1() {
    let tables = MoveTables::new();
    let knight = tables.table(PieceType::Knight, Color::White);
    let mask = knight.masks(sq("b1")).0;
    assert_eq!(mask.count_ones(), 3);
    assert!(mask.get_bit(sq("a3")));
    assert!(mask.get_bit(sq("c3")));
    assert!(mask.get_bit(sq("d2")));
}

#[test]
fn no_wraparound_across_the_board_edge() {
    let tables = MoveTables::new();
    let knight = tables.table(PieceType::Knight, Color::White);
    // From h1 a knight reaches only f2 and g3; nothing leaks onto the
    // a- or b-file of a neighbouring rank.
    let mask = knight.masks(sq("h1")).0;
    assert_eq!(mask.count_ones(), 2);
    assert!(mask.get_bit(sq("f2")));
    assert!(mask.get_bit(sq("g3")));
}

#[test]
fn rook_rays_are_full_length() {
    let tables = MoveTables::new();
    let rook = tables.table(PieceType::Rook, Color::Black);
    assert_eq!(rook.masks(sq("a1")).0.count_ones(), 14);
    assert_eq!(rook.masks(sq("d4")).0.count_ones(), 14);
}

#[test]
fn bishop_and_queen_rays() {
    let tables = MoveTables::new();
    let bishop = tables.table(PieceType::Bishop, Color::White);
    let queen = tables.table(PieceType::Queen, Color::White);
    assert_eq!(bishop.masks(sq("a1")).0.count_ones(), 7);
    assert_eq!(bishop.masks(sq("d4")).0.count_ones(), 13);
    assert_eq!(queen.masks(sq("d4")).0.count_ones(), 27);
}

#[test]
fn pawn_masks_push_and_capture() {
    let tables = MoveTables::new();
    let white = tables.table(PieceType::Pawn, Color::White);
    let (push, capture) = white.masks(sq("e2"));
    assert_eq!(push.count_ones(), 2);
    assert!(push.get_bit(sq("e3")));
    assert!(push.get_bit(sq("e4")));
    assert_eq!(capture.count_ones(), 2);
    assert!(capture.get_bit(sq("d3")));
    assert!(capture.get_bit(sq("f3")));

    let black = tables.table(PieceType::Pawn, Color::Black);
    let (bpush, bcapture) = black.masks(sq("e7"));
    assert!(bpush.get_bit(sq("e6")));
    assert!(bpush.get_bit(sq("e5")));
    assert!(bcapture.get_bit(sq("d6")));
    assert!(bcapture.get_bit(sq("f6")));
    let (mid_push, _) = black.masks(sq("e6"));
    assert_eq!(mid_push.count_ones(), 1);
}

#[test]
fn knight_at_b1_movement_options_exclude_own_pieces() {
    let tables = MoveTables::new();
    let board = InnerBoard::default();
    let b1 = BoardPosition::from_str("b1").unwrap();
    let moves = Knight::get_movement_options(&b1, &board, &tables, Color::White);
    let mut destinations: Vec<u64> = moves
        .iter()
        .map(|a| match a {
            Actions::Move(m) => m.to.to_num(),
            other => panic!("unexpected action {:?}", other),
        })
        .collect();
    destinations.sort();
    // d2 holds a white pawn, so of the table's three candidates only
    // a3 and c3 remain.
    assert_eq!(destinations, vec![sq("a3"), sq("c3")]);
}

#[test]
fn movement_options_on_the_starting_board() {
    let tables = MoveTables::new();
    let board = InnerBoard::default();
    let moves = board.get_movement_options(Color::White, &tables);
    // Each of the eight pawns has two pushes, each knight two leaps.
    assert_eq!(moves.len(), 20);
    let black_moves = board.get_movement_options(Color::Black, &tables);
    assert_eq!(black_moves.len(), 20);
}

#[test]
fn sliding_pieces_stop_at_blockers() {
    let tables = MoveTables::new();
    let mut board = InnerBoard::default();
    board
        .perform_actions(Actions::Move(chess_engine::actions::MoveAction::new(
            BoardPosition::from_str("e2").unwrap(),
            BoardPosition::from_str("e4").unwrap(),
            PieceType::Pawn,
            Color::White,
        )))
        .unwrap();
    let moves = board.get_movement_options(Color::White, &tables);
    let king_bishop_moves: Vec<u64> = moves
        .iter()
        .filter_map(|a| match a {
            Actions::Move(m)
                if m.piece == PieceType::Bishop && m.from.to_num() == sq("f1") =>
            {
                Some(m.to.to_num())
            }
            _ => None,
        })
        .collect();
    // The bishop on f1 sees the e2-a6 diagonal now that e2 is empty,
    // and still nothing past its own pawn on g2.
    let mut got = king_bishop_moves;
    got.sort();
    let mut want = vec![sq("e2"), sq("d3"), sq("c4"), sq("b5"), sq("a6")];
    want.sort();
    assert_eq!(got, want);
}

#[test]
fn is_takeable_queries() {
    let tables = MoveTables::new();
    let mut board = InnerBoard::default();
    // After e4 and d5 the white pawn on e4 can take on d5.
    for (f, t, c) in [("e2", "e4", Color::White), ("d7", "d5", Color::Black)] {
        board
            .perform_actions(Actions::Move(chess_engine::actions::MoveAction::new(
                BoardPosition::from_str(f).unwrap(),
                BoardPosition::from_str(t).unwrap(),
                PieceType::Pawn,
                c,
            )))
            .unwrap();
    }
    let e4 = BoardPosition::from_str("e4").unwrap();
    let d5 = BoardPosition::from_str("d5").unwrap();
    let e5 = BoardPosition::from_str("e5").unwrap();
    assert!(board.is_takeable(Color::White, PieceType::Pawn, e4, d5, &tables));
    assert!(!board.is_takeable(Color::White, PieceType::Pawn, e4, e5, &tables));
    assert!(board
        .try_is_takeable(Color::White, PieceType::Pawn, e4, d5, &tables)
        .is_ok());
}

use std::str::FromStr;

use chess_engine::actions::Actions;
use chess_engine::actions::CastleAction;
use chess_engine::actions::MoveAction;
use chess_engine::actions::TakeAction;
use chess_engine::board::Board;
use chess_engine::board::InnerBoard;
use chess_engine::board::PieceBoard;
use chess_engine::errors::BoardError;
use chess_engine::errors::Error;
use chess_engine::errors::ParsingError;
use chess_engine::history::History;
use chess_engine::notation::action_parser;
use chess_engine::notation::remove_comments;
use chess_engine::pieces::Color;
use chess_engine::pieces::PieceType;
use chess_engine::position::BoardPosition;
use chess_engine::rank::Rank;
use chess_engine::file::File;
use chess_engine::tables::MoveTables;

fn pos(s: &str) -> BoardPosition {
    BoardPosition::from_str(s).unwrap()
}

#[test]
fn comments_are_stripped() {
    assert_eq!(remove_comments("e4 {a fine move} e5").unwrap(), "e4  e5");
    assert_eq!(remove_comments("no comment").unwrap(), "no comment");
    assert_eq!(remove_comments("{all comment}").unwrap(), "");
}

#[test]
fn unbalanced_braces_are_an_error() {
    assert!(matches!(
        remove_comments("e4 {unclosed"),
        Err(ParsingError::UnbalancedBraces(_))
    ));
    assert!(matches!(
        remove_comments("stray } brace"),
        Err(ParsingError::UnbalancedBraces(_))
    ));
    assert!(matches!(
        remove_comments("{a{b}c}"),
        Err(ParsingError::UnbalancedBraces(_))
    ));
}

#[test]
fn pawn_push_token_resolves_uniquely() {
    let tables = MoveTables::new();
    let board = InnerBoard::default();
    let action = action_parser("e4".to_string(), Color::White, &board, &tables).unwrap();
    assert_eq!(
        action,
        Actions::Move(MoveAction::new(
            pos("e2"),
            pos("e4"),
            PieceType::Pawn,
            Color::White
        ))
    );
}

#[test]
fn knight_token_resolves_uniquely() {
    let tables = MoveTables::new();
    let board = InnerBoard::default();
    // Only the knight on g1 reaches f3; the one on b1 cannot.
    let action = action_parser("Nf3".to_string(), Color::White, &board, &tables).unwrap();
    assert_eq!(
        action,
        Actions::Move(MoveAction::new(
            pos("g1"),
            pos("f3"),
            PieceType::Knight,
            Color::White
        ))
    );
}

#[test]
fn capture_token_builds_a_take() {
    let tables = MoveTables::new();
    let mut board = InnerBoard::default();
    for (f, t, c) in [("e2", "e4", Color::White), ("d7", "d5", Color::Black)] {
        board
            .perform_actions(Actions::Move(MoveAction::new(
                pos(f),
                pos(t),
                PieceType::Pawn,
                c,
            )))
            .unwrap();
    }
    let action = action_parser("exd5".to_string(), Color::White, &board, &tables).unwrap();
    assert_eq!(
        action,
        Actions::Take(
            TakeAction::new(PieceType::Pawn, Color::Black, pos("d5")),
            MoveAction::new(pos("e4"), pos("d5"), PieceType::Pawn, Color::White)
        )
    );
}

#[test]
fn castle_tokens() {
    let tables = MoveTables::new();
    let board = InnerBoard::default();
    assert_eq!(
        action_parser("O-O".to_string(), Color::White, &board, &tables).unwrap(),
        Actions::Castle(CastleAction::Short(Color::White))
    );
    assert_eq!(
        action_parser("O-O-O".to_string(), Color::Black, &board, &tables).unwrap(),
        Actions::Castle(CastleAction::Long(Color::Black))
    );
}

#[test]
fn unreachable_destination_is_illegal() {
    let tables = MoveTables::new();
    let board = InnerBoard::default();
    let err = action_parser("Na5".to_string(), Color::White, &board, &tables).unwrap_err();
    assert!(matches!(err, Error::Board(BoardError::PieceNotInPlay)));
}

#[test]
fn ambiguous_token_needs_a_hint() {
    let tables = MoveTables::new();
    let empty = PieceBoard::new_custom(0, 0);
    // Two white rooks on a1 and h1, nothing else on the rank.
    let rooks = PieceBoard::new_custom(0x81, 0);
    let board = InnerBoard::new_inner_board([empty, rooks, empty, empty, empty, empty]);
    let err = action_parser("Rd1".to_string(), Color::White, &board, &tables).unwrap_err();
    assert!(matches!(err, Error::Parsning(ParsingError::AmbiguousMove)));
    // A file hint narrows the candidates back down to one.
    let action = action_parser("Rad1".to_string(), Color::White, &board, &tables).unwrap();
    assert_eq!(
        action,
        Actions::Move(MoveAction::new(
            pos("a1"),
            pos("d1"),
            PieceType::Rook,
            Color::White
        ))
    );
}

#[test]
fn capture_of_an_empty_square_misses_its_victim() {
    let tables = MoveTables::new();
    let board = InnerBoard::default();
    // d5 holds nothing on the starting board, so a capture aimed at it
    // operates on an empty required square, whether the origin is
    // written out in full or only hinted.
    let err = action_parser("e4xd5".to_string(), Color::White, &board, &tables).unwrap_err();
    assert!(matches!(err, Error::Board(BoardError::PieceMissing)), "{:?}", err);
    let err = action_parser("exd5".to_string(), Color::White, &board, &tables).unwrap_err();
    assert!(matches!(err, Error::Board(BoardError::PieceMissing)), "{:?}", err);
}

#[test]
fn empty_token_is_char_underflow() {
    let tables = MoveTables::new();
    let board = InnerBoard::default();
    let err = action_parser("".to_string(), Color::White, &board, &tables).unwrap_err();
    assert!(matches!(
        err,
        Error::Parsning(ParsingError::CharUnderflow)
    ));
}

#[test]
fn unbalanced_braces_carry_the_whole_input() {
    match remove_comments("e4 {unclosed") {
        Err(ParsingError::UnbalancedBraces(one_of)) => {
            assert_eq!(one_of.complete, Some("e4 {unclosed".to_string()));
        }
        other => panic!("expected an unbalanced-braces error, got {:?}", other),
    }
}

#[test]
fn malformed_tokens_are_parse_errors() {
    let tables = MoveTables::new();
    let board = InnerBoard::default();
    for bad in ["", "e", "e9", "z4", "Nf", "what", "e4!"] {
        let err = action_parser(bad.to_string(), Color::White, &board, &tables).unwrap_err();
        assert!(matches!(err, Error::Parsning(_)), "{:?}", err);
    }
}

#[test]
fn whole_game_text_replays() {
    let tables = MoveTables::new();
    let board =
        Board::try_from_algebraic_chess_notation("1.e4 e5 2.Nf3", &tables).unwrap();
    assert!(board.has_piece(&pos("e4")));
    assert!(board.has_piece(&pos("e5")));
    assert_eq!(
        board.inner_board.what_piece_on_square(&pos("f3")),
        Some(PieceType::Knight)
    );
    assert!(!board.has_piece(&pos("g1")));
    assert_eq!(board.turn, Color::Black);
    assert_eq!(board.history.0.len(), 3);
    assert!(board.validate_current_board());
    assert!(board.validate_history());
}

#[test]
fn game_text_with_comment_and_capture() {
    let tables = MoveTables::new();
    let board =
        Board::try_from_algebraic_chess_notation("1.e4 {gambit} d5 2.exd5", &tables).unwrap();
    assert!(board.is_piece_color(&pos("d5"), Color::White));
    assert_eq!(board.inner_board.count_all_black_pieces(), 15);
}

#[test]
fn illegal_game_text_fails() {
    let tables = MoveTables::new();
    assert!(Board::try_from_algebraic_chess_notation("1.e5", &tables).is_err());
    assert!(Board::try_from_algebraic_chess_notation("{open", &tables).is_err());
}

#[test]
fn square_names_parse_and_print_back() {
    let p = BoardPosition::from_str("e4").unwrap();
    assert_eq!(p.file, File::E);
    assert_eq!(p.rank, Rank::Four);
    assert_eq!(p.to_num(), 28);
    assert_eq!(BoardPosition::from_num(28), p);
    assert!(matches!(
        BoardPosition::from_str("e44"),
        Err(Error::Parsning(ParsingError::CharOverflow))
    ));
    assert!(matches!(
        BoardPosition::from_str("e"),
        Err(Error::Parsning(ParsingError::CharUnderflow))
    ));
    assert!(matches!(
        BoardPosition::from_str("z4"),
        Err(Error::Parsning(ParsingError::NotAFile(_)))
    ));
    assert!(matches!(
        BoardPosition::from_str("e9"),
        Err(Error::Parsning(ParsingError::NotARank(_)))
    ));
}

#[test]
fn file_and_rank_arithmetic_is_bounds_checked() {
    assert_eq!(File::A.as_u8(), 1);
    assert_eq!(File::from_u8(8).unwrap(), File::H);
    assert!(File::from_u8(0).is_err());
    assert!(File::from_u8(9).is_err());
    assert_eq!(File::E.add_offset(2).unwrap(), File::G);
    assert!(File::G.add_offset(2).is_err());
    assert_eq!(File::E.sub_offset(4).unwrap(), File::A);
    assert!(File::E.sub_offset(5).is_err());
    assert_eq!(Rank::from_u8(3).unwrap(), Rank::Three);
    assert!(Rank::from_u8(9).is_err());
    assert_eq!(Rank::Two.add_offset(2).unwrap(), Rank::Four);
    assert!(Rank::Seven.add_offset(2).is_err());
    assert_eq!(Rank::Four.sub_offset(3).unwrap(), Rank::One);
    assert!(Rank::Four.sub_offset(4).is_err());
}

#[test]
fn position_offsets_are_bounds_checked() {
    let e2 = pos("e2");
    let moved = e2.add_offset(chess_engine::position::MoveOffset(2, 0)).unwrap();
    assert_eq!(moved, pos("e4"));
    assert!(pos("h8").add_offset(chess_engine::position::MoveOffset(1, 0)).is_err());
    assert!(pos("h8").add_offset(chess_engine::position::MoveOffset(0, 1)).is_err());
}

#[test]
fn ep_annotation_token_is_skipped() {
    let tables = MoveTables::new();
    let board = Board::try_from_algebraic_chess_notation("1.e4 e.p. e5", &tables).unwrap();
    assert_eq!(board.history.0.len(), 2);
}

#[test]
fn expected_one_of_keeps_its_fields() {
    let e = chess_engine::errors::ExpectedOneOf::new(vec!['a', 'b'], Some('c'), None);
    assert_eq!(e.excpected, vec!['a', 'b']);
    assert_eq!(e.got, Some('c'));
    assert_eq!(e.complete, None);
    let _ = History(Vec::new());
}

#[test]
fn errors_wrap_into_the_common_type() {
    let e: Error = Error::from(ParsingError::CharOverflow);
    assert!(matches!(e, Error::Parsning(ParsingError::CharOverflow)));
    let b: Error = Error::from(BoardError::SameColor);
    assert!(matches!(b, Error::Board(BoardError::SameColor)));
}

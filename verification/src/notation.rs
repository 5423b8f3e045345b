//! Reading algebraic notation: comment stripping, token parsing, and
//! the resolution of a token against the board — intersecting the
//! piece's reach anchored at the destination with the occupancy of its
//! kind and colour, narrowed by any disambiguation hints.

use vstd::prelude::*;
use vstd::string::StrSliceExecFns;
use vstd::string::StringExecFns;

use crate::actions::Actions;
use crate::actions::CastleAction;
use crate::actions::MoveAction;
use crate::actions::TakeAction;
use crate::board::Board;
use crate::board::InnerBoard;
use crate::errors::BoardError;
use crate::errors::Error;
use crate::errors::ExpectedOneOf;
use crate::errors::ParsingError;
use crate::movegen::cand_move;
use crate::movegen::cand_take;
use crate::movegen::move_action_at;
use crate::movegen::path_clear_test;
use crate::movegen::take_action_at;
use crate::pieces::Color;
use crate::pieces::PieceType;
use crate::position::BoardPosition;
use crate::tables::MoveTables;
use crate::tables::sq_file;
use crate::tables::sq_rank;

verus! {

/// The characters of `s`, one by one.
pub fn str_chars(s: &str) -> (v: Vec<char>)
    ensures
        v@ == s@,
{
    let n = s.unicode_len();
    let mut v: Vec<char> = Vec::new();
    let mut i: usize = 0;
    while i < n
        invariant
            i <= n,
            n == s@.len(),
            v@ == s@.subrange(0, i as int),
        decreases n - i,
    {
        v.push(s.get_char(i));
        proof {
            assert(v@ =~= s@.subrange(0, i + 1));
        }
        i = i + 1;
    }
    proof {
        assert(v@ =~= s@);
    }
    v
}

/// One step of comment stripping: at position `i`, either inside a
/// `{...}` span or copying characters into `acc`.  `None` when a span
/// never closes or a stray `}` appears.
pub open spec fn strip_rec(s: Seq<char>, i: int, inside: bool, acc: Seq<char>) -> Option<
    Seq<char>,
>
    decreases s.len() - i,
{
    if i < 0 || i >= s.len() {
        if inside {
            None
        } else {
            Some(acc)
        }
    } else if inside {
        if s[i] == '}' {
            strip_rec(s, i + 1, false, acc)
        } else {
            strip_rec(s, i + 1, true, acc)
        }
    } else {
        if s[i] == '{' {
            strip_rec(s, i + 1, true, acc)
        } else if s[i] == '}' {
            None
        } else {
            strip_rec(s, i + 1, false, acc.push(s[i]))
        }
    }
}

/// What comment stripping leaves of `s`: every `{...}` span removed,
/// or nothing when the braces do not balance.  Nesting does not pair:
/// a span ends at the first `}`, and any brace left over is an error.
pub open spec fn spec_remove_comments(s: Seq<char>) -> Option<Seq<char>> {
    strip_rec(s, 0, false, Seq::empty())
}

/// Strips `{...}` comment spans from the input; fails on a span that
/// never closes or a closing brace that never opened.  The error
/// carries the complete original input.
pub fn remove_comments(input: &str) -> (r: Result<String, ParsingError>)
    ensures
        match r {
            Ok(out) => spec_remove_comments(input@) == Some(out@),
            Err(e) => spec_remove_comments(input@) is None && (e matches
                ParsingError::UnbalancedBraces(one_of) && (one_of.complete matches Some(orig)
                && orig@ == input@)),
        },
{
    let n = input.unicode_len();
    let mut out = String::new();
    let mut inside = false;
    let mut i: usize = 0;
    while i < n
        invariant
            i <= n,
            n == input@.len(),
            strip_rec(input@, i as int, inside, out@) == spec_remove_comments(input@),
        decreases n - i,
    {
        let c = input.get_char(i);
        if inside {
            if c == '}' {
                inside = false;
            }
        } else {
            if c == '{' {
                inside = true;
            } else if c == '}' {
                return Err(ParsingError::UnbalancedBraces(ExpectedOneOf::new(
                    vec!['}'],
                    None,
                    Some(input.to_owned()),
                )));
            } else {
                let ghost out0 = out@;
                let piece = input.substring_char(i, i + 1);
                out.append(piece);
                proof {
                    assert(out@ =~= out0.push(input@[i as int]));
                }
            }
        }
        i = i + 1;
    }
    if inside {
        Err(ParsingError::UnbalancedBraces(ExpectedOneOf::new(
            vec!['}'],
            None,
            Some(input.to_owned()),
        )))
    } else {
        Ok(out)
    }
}

/// One parsed move token: the piece kind, the optional disambiguation
/// hints, whether it captures, and the destination square.
#[derive(Debug, Clone, Copy, PartialEq, Eq, Structural)]
pub struct TokenParts {
    pub kind: PieceType,
    pub file_hint: Option<u8>,
    pub rank_hint: Option<u8>,
    pub is_take: bool,
    pub dest: u64,
}

/// The piece kind a leading capital letter names, if any; a token
/// without one moves a pawn.
pub open spec fn piece_letter(c: char) -> Option<PieceType> {
    match c {
        'N' => Some(PieceType::Knight),
        'Q' => Some(PieceType::Queen),
        'R' => Some(PieceType::Rook),
        'K' => Some(PieceType::King),
        'B' => Some(PieceType::Bishop),
        _ => None,
    }
}

/// The zero-based file a lower-case letter names, if any.
pub open spec fn file_idx_of(c: char) -> Option<u8> {
    match c {
        'a' => Some(0u8),
        'b' => Some(1u8),
        'c' => Some(2u8),
        'd' => Some(3u8),
        'e' => Some(4u8),
        'f' => Some(5u8),
        'g' => Some(6u8),
        'h' => Some(7u8),
        _ => None,
    }
}

/// The zero-based rank a digit names, if any.
pub open spec fn rank_idx_of(c: char) -> Option<u8> {
    match c {
        '1' => Some(0u8),
        '2' => Some(1u8),
        '3' => Some(2u8),
        '4' => Some(3u8),
        '5' => Some(4u8),
        '6' => Some(5u8),
        '7' => Some(6u8),
        '8' => Some(7u8),
        _ => None,
    }
}

/// The square two characters name, file letter then rank digit.
pub open spec fn square_of(fc: char, rc: char) -> Option<u64> {
    match (file_idx_of(fc), rank_idx_of(rc)) {
        (Some(f), Some(k)) => Some((k * 8 + f) as u64),
        _ => None,
    }
}

/// Reads everything after the optional piece letter: optional file and
/// rank hints, an optional `x`, and the destination square.
pub open spec fn parse_rest(t: Seq<char>, i: int, kind: PieceType) -> Option<TokenParts>
{
    let m = t.len() - i;
    if m == 2 {
        match square_of(t[i], t[i + 1]) {
            Some(d) => Some(
                TokenParts { kind, file_hint: None, rank_hint: None, is_take: false, dest: d },
            ),
            None => None,
        }
    } else if m == 3 {
        if t[i] == 'x' {
            match square_of(t[i + 1], t[i + 2]) {
                Some(d) => Some(
                    TokenParts { kind, file_hint: None, rank_hint: None, is_take: true, dest: d },
                ),
                None => None,
            }
        } else if file_idx_of(t[i]) is Some {
            match square_of(t[i + 1], t[i + 2]) {
                Some(d) => Some(
                    TokenParts {
                        kind,
                        file_hint: file_idx_of(t[i]),
                        rank_hint: None,
                        is_take: false,
                        dest: d,
                    },
                ),
                None => None,
            }
        } else if rank_idx_of(t[i]) is Some {
            match square_of(t[i + 1], t[i + 2]) {
                Some(d) => Some(
                    TokenParts {
                        kind,
                        file_hint: None,
                        rank_hint: rank_idx_of(t[i]),
                        is_take: false,
                        dest: d,
                    },
                ),
                None => None,
            }
        } else {
            None
        }
    } else if m == 4 {
        if file_idx_of(t[i]) is Some && t[i + 1] == 'x' {
            match square_of(t[i + 2], t[i + 3]) {
                Some(d) => Some(
                    TokenParts {
                        kind,
                        file_hint: file_idx_of(t[i]),
                        rank_hint: None,
                        is_take: true,
                        dest: d,
                    },
                ),
                None => None,
            }
        } else if rank_idx_of(t[i]) is Some && t[i + 1] == 'x' {
            match square_of(t[i + 2], t[i + 3]) {
                Some(d) => Some(
                    TokenParts {
                        kind,
                        file_hint: None,
                        rank_hint: rank_idx_of(t[i]),
                        is_take: true,
                        dest: d,
                    },
                ),
                None => None,
            }
        } else if file_idx_of(t[i]) is Some && rank_idx_of(t[i + 1]) is Some {
            match square_of(t[i + 2], t[i + 3]) {
                Some(d) => Some(
                    TokenParts {
                        kind,
                        file_hint: file_idx_of(t[i]),
                        rank_hint: rank_idx_of(t[i + 1]),
                        is_take: false,
                        dest: d,
                    },
                ),
                None => None,
            }
        } else {
            None
        }
    } else if m == 5 {
        if file_idx_of(t[i]) is Some && rank_idx_of(t[i + 1]) is Some && t[i + 2] == 'x' {
            match square_of(t[i + 3], t[i + 4]) {
                Some(d) => Some(
                    TokenParts {
                        kind,
                        file_hint: file_idx_of(t[i]),
                        rank_hint: rank_idx_of(t[i + 1]),
                        is_take: true,
                        dest: d,
                    },
                ),
                None => None,
            }
        } else {
            None
        }
    } else {
        None
    }
}

/// Reads one whole move token; `None` when it fits no supported form.
pub open spec fn spec_parse_token(t: Seq<char>) -> Option<TokenParts> {
    if t.len() > 0 && piece_letter(t[0]) is Some {
        parse_rest(t, 1, piece_letter(t[0])->Some_0)
    } else {
        parse_rest(t, 0, PieceType::Pawn)
    }
}

/// Kingside castle, written `O-O`.
pub open spec fn is_castle_short_tok(t: Seq<char>) -> bool {
    t.len() == 3 && t[0] == 'O' && t[1] == '-' && t[2] == 'O'
}

/// Queenside castle, written `O-O-O`.
pub open spec fn is_castle_long_tok(t: Seq<char>) -> bool {
    t.len() == 5 && t[0] == 'O' && t[1] == '-' && t[2] == 'O' && t[3] == '-' && t[4] == 'O'
}

fn piece_letter_test(c: char) -> (r: Option<PieceType>)
    ensures
        r == piece_letter(c),
{
    match c {
        'N' => Some(PieceType::Knight),
        'Q' => Some(PieceType::Queen),
        'R' => Some(PieceType::Rook),
        'K' => Some(PieceType::King),
        'B' => Some(PieceType::Bishop),
        _ => None,
    }
}

fn file_idx_test(c: char) -> (r: Option<u8>)
    ensures
        r == file_idx_of(c),
{
    match c {
        'a' => Some(0u8),
        'b' => Some(1u8),
        'c' => Some(2u8),
        'd' => Some(3u8),
        'e' => Some(4u8),
        'f' => Some(5u8),
        'g' => Some(6u8),
        'h' => Some(7u8),
        _ => None,
    }
}

fn rank_idx_test(c: char) -> (r: Option<u8>)
    ensures
        r == rank_idx_of(c),
{
    match c {
        '1' => Some(0u8),
        '2' => Some(1u8),
        '3' => Some(2u8),
        '4' => Some(3u8),
        '5' => Some(4u8),
        '6' => Some(5u8),
        '7' => Some(6u8),
        '8' => Some(7u8),
        _ => None,
    }
}

fn square_test(fc: char, rc: char) -> (r: Option<u64>)
    ensures
        r == square_of(fc, rc),
        r matches Some(d) ==> d < 64,
{
    match (file_idx_test(fc), rank_idx_test(rc)) {
        (Some(f), Some(k)) => Some((k * 8 + f) as u64),
        _ => None,
    }
}

/// Reads one move token from its characters.
fn parse_token(t: &Vec<char>) -> (r: Option<TokenParts>)
    ensures
        r == spec_parse_token(t@),
        r matches Some(p) ==> p.dest < 64,
{
    let n = t.len();
    let (kind, i): (PieceType, usize) = if n > 0 {
        match piece_letter_test(t[0]) {
            Some(k) => (k, 1),
            None => (PieceType::Pawn, 0),
        }
    } else {
        (PieceType::Pawn, 0)
    };
    let m = n - i;
    if m == 2 {
        match square_test(t[i], t[i + 1]) {
            Some(d) => Some(
                TokenParts { kind, file_hint: None, rank_hint: None, is_take: false, dest: d },
            ),
            None => None,
        }
    } else if m == 3 {
        if t[i] == 'x' {
            match square_test(t[i + 1], t[i + 2]) {
                Some(d) => Some(
                    TokenParts { kind, file_hint: None, rank_hint: None, is_take: true, dest: d },
                ),
                None => None,
            }
        } else if let Some(fh) = file_idx_test(t[i]) {
            match square_test(t[i + 1], t[i + 2]) {
                Some(d) => Some(
                    TokenParts {
                        kind,
                        file_hint: Some(fh),
                        rank_hint: None,
                        is_take: false,
                        dest: d,
                    },
                ),
                None => None,
            }
        } else if let Some(rh) = rank_idx_test(t[i]) {
            match square_test(t[i + 1], t[i + 2]) {
                Some(d) => Some(
                    TokenParts {
                        kind,
                        file_hint: None,
                        rank_hint: Some(rh),
                        is_take: false,
                        dest: d,
                    },
                ),
                None => None,
            }
        } else {
            None
        }
    } else if m == 4 {
        let fh0 = file_idx_test(t[i]);
        let rh0 = rank_idx_test(t[i]);
        if fh0.is_some() && t[i + 1] == 'x' {
            match square_test(t[i + 2], t[i + 3]) {
                Some(d) => Some(
                    TokenParts { kind, file_hint: fh0, rank_hint: None, is_take: true, dest: d },
                ),
                None => None,
            }
        } else if rh0.is_some() && t[i + 1] == 'x' {
            match square_test(t[i + 2], t[i + 3]) {
                Some(d) => Some(
                    TokenParts { kind, file_hint: None, rank_hint: rh0, is_take: true, dest: d },
                ),
                None => None,
            }
        } else if fh0.is_some() && rank_idx_test(t[i + 1]).is_some() {
            match square_test(t[i + 2], t[i + 3]) {
                Some(d) => Some(
                    TokenParts {
                        kind,
                        file_hint: fh0,
                        rank_hint: rank_idx_test(t[i + 1]),
                        is_take: false,
                        dest: d,
                    },
                ),
                None => None,
            }
        } else {
            None
        }
    } else if m == 5 {
        let fh0 = file_idx_test(t[i]);
        if fh0.is_some() && rank_idx_test(t[i + 1]).is_some() && t[i + 2] == 'x' {
            match square_test(t[i + 3], t[i + 4]) {
                Some(d) => Some(
                    TokenParts {
                        kind,
                        file_hint: fh0,
                        rank_hint: rank_idx_test(t[i + 1]),
                        is_take: true,
                        dest: d,
                    },
                ),
                None => None,
            }
        } else {
            None
        }
    } else {
        None
    }
}

/// Whether the piece of the token's kind and colour standing on `s`
/// could make the token's move or capture, and matches its hints.
pub open spec fn resolves(
    b: InnerBoard,
    color: Color,
    p: TokenParts,
    s: u64,
) -> bool {
    &&& s < 64
    &&& b.slot_has(p.kind, color, s)
    &&& if p.is_take {
        cand_take(b, p.kind, color, s, p.dest)
    } else {
        cand_move(b, p.kind, color, s, p.dest)
    }
    &&& match p.file_hint {
        Some(fh) => sq_file(s) == fh as int,
        None => true,
    }
    &&& match p.rank_hint {
        Some(rh) => sq_rank(s) == rh as int,
        None => true,
    }
}

/// Exactly one origin square resolves the token.
pub open spec fn unique_origin(b: InnerBoard, color: Color, p: TokenParts) -> bool {
    &&& exists|s: u64| #[trigger] resolves(b, color, p, s)
    &&& forall|s1: u64, s2: u64|
        #[trigger] resolves(b, color, p, s1) && #[trigger] resolves(b, color, p, s2) ==> s1 == s2
}

/// No origin square resolves the token.
pub open spec fn no_origin(b: InnerBoard, color: Color, p: TokenParts) -> bool {
    forall|s: u64| !(#[trigger] resolves(b, color, p, s))
}

/// The action a uniquely resolved token denotes.
pub open spec fn resolved_action(b: InnerBoard, color: Color, p: TokenParts) -> Actions {
    let s = choose|s: u64| resolves(b, color, p, s);
    if p.is_take {
        take_action_at(b, p.kind, color, s, p.dest)
    } else {
        move_action_at(p.kind, color, s, p.dest)
    }
}

fn resolves_test(
    b: &InnerBoard,
    tables: &MoveTables,
    color: Color,
    p: &TokenParts,
    s: u64,
) -> (r: bool)
    requires
        tables.wf(),
        s < 64,
        p.dest < 64,
    ensures
        r == resolves(*b, color, *p, s),
{
    let pos = BoardPosition::from_num(s);
    if !b.slot_test(p.kind, color, &pos) {
        return false;
    }
    let table = tables.table(p.kind, color);
    let masks = table.masks(s);
    let dest_pos = BoardPosition::from_num(p.dest);
    let step_ok = if p.is_take {
        masks.1.get_bit(p.dest) && path_clear_test(b, s, p.dest) && (match color {
            Color::White => b.has_black_piece(&dest_pos),
            Color::Black => b.has_white_piece(&dest_pos),
        })
    } else {
        masks.0.get_bit(p.dest) && path_clear_test(b, s, p.dest) && !b.has(&dest_pos)
    };
    if !step_ok {
        return false;
    }
    let file_ok = match p.file_hint {
        Some(fh) => s % 8 == fh as u64,
        None => true,
    };
    let rank_ok = match p.rank_hint {
        Some(rh) => s / 8 == rh as u64,
        None => true,
    };
    file_ok && rank_ok
}

/// The error a failed token earns, in order of precedence: a capture
/// aimed at a square no piece of any kind stands on operates on an
/// empty required square (`PieceMissing`); otherwise a token no origin
/// resolves is an illegal move (`PieceNotInPlay`); and one that several
/// origins still resolve after every hint is ambiguous.
pub open spec fn resolution_error_ok(b: InnerBoard, color: Color, p: TokenParts, e: Error) -> bool {
    if p.is_take && !b.occupied(p.dest) {
        e == Error::Board(BoardError::PieceMissing)
    } else if no_origin(b, color, p) {
        e == Error::Board(BoardError::PieceNotInPlay)
    } else if !unique_origin(b, color, p) {
        e == Error::Parsning(ParsingError::AmbiguousMove)
    } else {
        false
    }
}

/// The error a token that fits no supported form earns: an empty token
/// is too short to name anything, any other malformed token is some
/// parsing failure short of ambiguity.
pub open spec fn malformed_error_ok(t: Seq<char>, e: Error) -> bool {
    if t.len() == 0 {
        e == Error::Parsning(ParsingError::CharUnderflow)
    } else {
        e matches Error::Parsning(pe) && !(pe matches ParsingError::AmbiguousMove)
    }
}

/// Resolves one token of algebraic notation against the board: castles
/// map directly; any other token is parsed and its origin found by
/// intersecting the piece's reach at the destination with the board's
/// occupancy, narrowed by the token's hints.  Exactly one origin must
/// remain: none is an illegal move, several are an ambiguous one, and
/// a capture pointed at an empty square misses its victim.
pub fn action_parser(
    v: String,
    color: Color,
    board: &InnerBoard,
    tables: &MoveTables,
) -> (r: Result<Actions, Error>)
    requires
        tables.wf(),
    ensures
        match r {
            Ok(a) => (is_castle_long_tok(v@) && a == Actions::Castle(CastleAction::Long(color)))
                || (!is_castle_long_tok(v@) && is_castle_short_tok(v@) && a == Actions::Castle(
                CastleAction::Short(color),
            )) || (!is_castle_long_tok(v@) && !is_castle_short_tok(v@) && (match spec_parse_token(
                v@,
            ) {
                Some(p) => unique_origin(*board, color, p) && a == resolved_action(
                    *board,
                    color,
                    p,
                ),
                None => false,
            })),
            Err(e) => !is_castle_long_tok(v@) && !is_castle_short_tok(v@) && (match
                spec_parse_token(v@) {
                Some(p) => resolution_error_ok(*board, color, p, e),
                None => malformed_error_ok(v@, e),
            }),
        },
{
    let chars = str_chars(v.as_str());
    action_parser_chars(&chars, color, board, tables)
}

/// The token resolver, over the token's characters.
pub fn action_parser_chars(
    t: &Vec<char>,
    color: Color,
    board: &InnerBoard,
    tables: &MoveTables,
) -> (r: Result<Actions, Error>)
    requires
        tables.wf(),
    ensures
        match r {
            Ok(a) => (is_castle_long_tok(t@) && a == Actions::Castle(CastleAction::Long(color)))
                || (!is_castle_long_tok(t@) && is_castle_short_tok(t@) && a == Actions::Castle(
                CastleAction::Short(color),
            )) || (!is_castle_long_tok(t@) && !is_castle_short_tok(t@) && (match spec_parse_token(
                t@,
            ) {
                Some(p) => unique_origin(*board, color, p) && a == resolved_action(
                    *board,
                    color,
                    p,
                ),
                None => false,
            })),
            Err(e) => !is_castle_long_tok(t@) && !is_castle_short_tok(t@) && (match
                spec_parse_token(t@) {
                Some(p) => resolution_error_ok(*board, color, p, e),
                None => malformed_error_ok(t@, e),
            }),
        },
{
    let n = t.len();
    if n == 5 && t[0] == 'O' && t[1] == '-' && t[2] == 'O' && t[3] == '-' && t[4] == 'O' {
        return Ok(Actions::Castle(CastleAction::Long(color)));
    }
    if n == 3 && t[0] == 'O' && t[1] == '-' && t[2] == 'O' {
        return Ok(Actions::Castle(CastleAction::Short(color)));
    }
    let p = match parse_token(t) {
        Some(p) => p,
        None => {
            if n == 0 {
                return Err(Error::Parsning(ParsingError::CharUnderflow));
            }
            return Err(Error::Parsning(ParsingError::ExpectedOneOf(ExpectedOneOf::new(
                vec![
                    'a', 'b', 'c', 'd', 'e', 'f', 'g', 'h', '1', '2', '3', '4', '5', '6', '7', '8',
                    'x',
                ],
                None,
                None,
            ))));
        },
    };
    if p.is_take && !board.has(&BoardPosition::from_num(p.dest)) {
        // The capture names a victim square that holds nothing at all.
        return Err(Error::Board(BoardError::PieceMissing));
    }
    let mut found: Option<u64> = None;
    let mut s: u64 = 0;
    while s < 64
        invariant
            s <= 64,
            tables.wf(),
            p.dest < 64,
            !is_castle_long_tok(t@),
            !is_castle_short_tok(t@),
            spec_parse_token(t@) == Some(p),
            p.is_take ==> board.occupied(p.dest),
            match found {
                Some(s0) => s0 < s && resolves(*board, color, p, s0) && (forall|s2: u64|
                    s2 < s && #[trigger] resolves(*board, color, p, s2) ==> s2 == s0),
                None => forall|s2: u64| s2 < s ==> !(#[trigger] resolves(*board, color, p, s2)),
            },
        decreases 64 - s,
    {
        if resolves_test(board, tables, color, &p, s) {
            match found {
                None => {
                    found = Some(s);
                },
                Some(s0) => {
                    proof {
                        assert(resolves(*board, color, p, s0) && resolves(*board, color, p, s)
                            && s0 != s);
                    }
                    return Err(Error::Parsning(ParsingError::AmbiguousMove));
                },
            }
        }
        s = s + 1;
    }
    let origin = match found {
        Some(s0) => s0,
        None => {
            return Err(Error::Board(BoardError::PieceNotInPlay));
        },
    };
    proof {
        assert(unique_origin(*board, color, p));
        assert((choose|s2: u64| resolves(*board, color, p, s2)) == origin) by {
            let w = choose|s2: u64| resolves(*board, color, p, s2);
            assert(resolves(*board, color, p, w));
        }
    }
    let from_pos = BoardPosition::from_num(origin);
    let dest_pos = BoardPosition::from_num(p.dest);
    if p.is_take {
        proof {
            crate::board::lemma_occupied_iff(*board, p.dest);
            crate::board::lemma_what_piece_some(*board, p.dest);
        }
        let tk = board.what_piece_on_square(&dest_pos).unwrap();
        let tc = board.what_color_is_on_square(&dest_pos).unwrap();
        Ok(Actions::Take(
            TakeAction::new(tk, tc, dest_pos),
            MoveAction::new(from_pos, dest_pos, p.kind, color),
        ))
    } else {
        Ok(Actions::Move(MoveAction::new(from_pos, dest_pos, p.kind, color)))
    }
}

/// Whatever a token parses to aims inside the board.
proof fn lemma_parse_token_dest_bound(t: Seq<char>)
    ensures
        spec_parse_token(t) matches Some(p) ==> p.dest < 64,
{
}

/// A capture aimed at an empty square has no origin: no piece could
/// resolve it, since a take needs an enemy on the destination.
proof fn lemma_take_on_empty_has_no_origin(b: InnerBoard, color: Color, p: TokenParts)
    requires
        p.is_take,
        p.dest < 64,
        !b.occupied(p.dest),
    ensures
        no_origin(b, color, p),
{
    crate::board::lemma_occupied_iff(b, p.dest);
    assert forall|s: u64| !(#[trigger] resolves(b, color, p, s)) by {
        if resolves(b, color, p, s) {
            assert(b.occupied_color(color.spec_flip(), p.dest));
        }
    }
}

/// The whitespace that separates move tokens.
pub open spec fn is_ws(c: char) -> bool {
    c == ' ' || c == '\t' || c == '\n' || c == '\r'
}

/// Splitting on whitespace, one character at a time: `cur` is the
/// token being read, `acc` the tokens already read.
pub open spec fn tokenize_rec(
    s: Seq<char>,
    i: int,
    cur: Seq<char>,
    acc: Seq<Seq<char>>,
) -> Seq<Seq<char>>
    decreases s.len() - i,
{
    if i < 0 || i >= s.len() {
        if cur.len() > 0 {
            acc.push(cur)
        } else {
            acc
        }
    } else if is_ws(s[i]) {
        if cur.len() > 0 {
            tokenize_rec(s, i + 1, Seq::empty(), acc.push(cur))
        } else {
            tokenize_rec(s, i + 1, Seq::empty(), acc)
        }
    } else {
        tokenize_rec(s, i + 1, cur.push(s[i]), acc)
    }
}

/// The whitespace-separated tokens of `s`, in order.
pub open spec fn tokenize(s: Seq<char>) -> Seq<Seq<char>> {
    tokenize_rec(s, 0, Seq::empty(), Seq::empty())
}

fn is_ws_test(c: char) -> (r: bool)
    ensures
        r == is_ws(c),
{
    c == ' ' || c == '\t' || c == '\n' || c == '\r'
}

/// Splits the input into its whitespace-separated tokens.
fn tokenize_chars(s: &Vec<char>) -> (r: Vec<Vec<char>>)
    ensures
        r.deep_view() == tokenize(s@),
{
    let n = s.len();
    let mut acc: Vec<Vec<char>> = Vec::new();
    let mut cur: Vec<char> = Vec::new();
    proof {
        assert(acc.deep_view() =~~= Seq::<Seq<char>>::empty());
        assert(cur@ =~= Seq::<char>::empty());
    }
    let mut i: usize = 0;
    while i < n
        invariant
            i <= n,
            n == s@.len(),
            tokenize(s@) == tokenize_rec(s@, i as int, cur@, acc.deep_view()),
        decreases n - i,
    {
        let ghost acc0 = acc.deep_view();
        let ghost cur0 = cur@;
        let c = s[i];
        if is_ws_test(c) {
            if cur.len() > 0 {
                acc.push(cur);
                cur = Vec::new();
                proof {
                    assert(acc.deep_view() =~~= acc0.push(cur0));
                    assert(cur@ =~= Seq::<char>::empty());
                }
            } else {
                proof {
                    assert(cur@ =~= Seq::<char>::empty());
                }
            }
        } else {
            cur.push(c);
        }
        i = i + 1;
    }
    if cur.len() > 0 {
        let ghost acc0 = acc.deep_view();
        let ghost cur0 = cur@;
        acc.push(cur);
        proof {
            assert(acc.deep_view() =~~= acc0.push(cur0));
        }
    }
    acc
}

/// A move-number digit or the dot that closes it.
pub open spec fn is_number_char(c: char) -> bool {
    c == '.' || c == '0' || c == '1' || c == '2' || c == '3' || c == '4' || c == '5' || c == '6'
        || c == '7' || c == '8' || c == '9'
}

/// The token from its first character that is neither a digit nor a
/// dot; empty when none remains.
pub open spec fn strip_from(t: Seq<char>, i: int) -> Seq<char>
    decreases t.len() - i,
{
    if i < 0 || i >= t.len() {
        Seq::empty()
    } else if is_number_char(t[i]) {
        strip_from(t, i + 1)
    } else {
        t.subrange(i, t.len() as int)
    }
}

/// A token with any leading move number removed.
pub open spec fn strip_move_number(t: Seq<char>) -> Seq<char> {
    strip_from(t, 0)
}

fn is_number_char_test(c: char) -> (r: bool)
    ensures
        r == is_number_char(c),
{
    c == '.' || c == '0' || c == '1' || c == '2' || c == '3' || c == '4' || c == '5' || c == '6'
        || c == '7' || c == '8' || c == '9'
}

/// Removes a leading move number such as `1.` from a token.
fn strip_move_number_exec(t: &Vec<char>) -> (r: Vec<char>)
    ensures
        r@ == strip_move_number(t@),
{
    let n = t.len();
    let mut k: usize = 0;
    while k < n && is_number_char_test(t[k])
        invariant
            k <= n,
            n == t@.len(),
            strip_move_number(t@) == strip_from(t@, k as int),
        decreases n - k,
    {
        k = k + 1;
    }
    let mut out: Vec<char> = Vec::new();
    let mut j: usize = k;
    while j < n
        invariant
            k <= j <= n,
            n == t@.len(),
            out@ == t@.subrange(k as int, j as int),
        decreases n - j,
    {
        out.push(t[j]);
        proof {
            assert(out@ =~= t@.subrange(k as int, j + 1));
        }
        j = j + 1;
    }
    proof {
        if k < n {
            assert(out@ =~= strip_from(t@, k as int));
        } else {
            assert(out@ =~= Seq::<char>::empty());
        }
    }
    out
}

/// The annotation that marks the previous move as an en-passant
/// capture; it names no move of its own.
pub open spec fn is_ep_tok(t: Seq<char>) -> bool {
    t.len() == 4 && t[0] == 'e' && t[1] == '.' && t[2] == 'p' && t[3] == '.'
}

fn is_ep_tok_test(t: &Vec<char>) -> (r: bool)
    ensures
        r == is_ep_tok(t@),
{
    t.len() == 4 && t[0] == 'e' && t[1] == '.' && t[2] == 'p' && t[3] == '.'
}

/// One turn of a game, as `Board::perform_actions` plays it: `None`
/// when either the turn rules or the board refuse the action.
pub open spec fn board_step(
    inner: InnerBoard,
    turn: Color,
    h: Seq<Actions>,
    a: Actions,
) -> Option<(InnerBoard, Color, Seq<Actions>)> {
    if crate::actions::board_gate_err(inner, h, a) is Some {
        None
    } else if crate::actions::action_err(inner, a) is Some {
        None
    } else {
        Some((crate::actions::apply_action(inner, a), turn.spec_flip(), h.push(a)))
    }
}

/// What one token does to a game: an `e.p.` annotation changes
/// nothing; a castle or a uniquely resolved move is played; anything
/// else fails.
pub open spec fn token_step(
    inner: InnerBoard,
    turn: Color,
    h: Seq<Actions>,
    tok: Seq<char>,
) -> Option<(InnerBoard, Color, Seq<Actions>)> {
    let t = strip_move_number(tok);
    if is_ep_tok(t) {
        Some((inner, turn, h))
    } else if is_castle_long_tok(t) {
        board_step(inner, turn, h, Actions::Castle(CastleAction::Long(turn)))
    } else if is_castle_short_tok(t) {
        board_step(inner, turn, h, Actions::Castle(CastleAction::Short(turn)))
    } else {
        match spec_parse_token(t) {
            Some(p) => if unique_origin(inner, turn, p) {
                board_step(inner, turn, h, resolved_action(inner, turn, p))
            } else {
                None
            },
            None => None,
        }
    }
}

/// The game reached by playing the tokens `toks[i..]` in order.
pub open spec fn run_tokens(
    inner: InnerBoard,
    turn: Color,
    h: Seq<Actions>,
    toks: Seq<Seq<char>>,
    i: int,
) -> Option<(InnerBoard, Color, Seq<Actions>)>
    decreases toks.len() - i,
{
    if i < 0 || i >= toks.len() {
        Some((inner, turn, h))
    } else {
        match token_step(inner, turn, h, toks[i]) {
            Some((b2, t2, h2)) => run_tokens(b2, t2, h2, toks, i + 1),
            None => None,
        }
    }
}

impl Board {
    /// Plays a whole game text: comments stripped, the moves split on
    /// whitespace, each token freed of its move number and resolved
    /// against the position it meets, colours alternating from White.
    /// The result is the board the last move leaves.
    pub fn try_from_algebraic_chess_notation(input: &str, tables: &MoveTables) -> (r: Result<
        Board,
        Error,
    >)
        requires
            tables.wf(),
        ensures
            match r {
                Ok(board) => match spec_remove_comments(input@) {
                    Some(cleaned) => run_tokens(
                        crate::board::start_layout(),
                        Color::White,
                        Seq::empty(),
                        tokenize(cleaned),
                        0,
                    ) == Some((board.inner_board, board.turn, board.history.0@)),
                    None => false,
                },
                Err(e) => match spec_remove_comments(input@) {
                    Some(cleaned) => run_tokens(
                        crate::board::start_layout(),
                        Color::White,
                        Seq::empty(),
                        tokenize(cleaned),
                        0,
                    ) is None,
                    None => e matches Error::Parsning(ParsingError::UnbalancedBraces(_)),
                },
            },
    {
        let cleaned = match remove_comments(input) {
            Ok(s) => s,
            Err(e) => {
                return Err(Error::Parsning(e));
            },
        };
        let chars = str_chars(cleaned.as_str());
        let toks = tokenize_chars(&chars);
        let mut board = Board::new();
        proof {
            assert(board.history.0@ =~= Seq::<Actions>::empty());
        }
        let n = toks.len();
        let ghost toksd = toks.deep_view();
        let mut i: usize = 0;
        while i < n
            invariant
                i <= n,
                tables.wf(),
                n == toksd.len(),
                toksd == toks.deep_view(),
                n == toks@.len(),
                spec_remove_comments(input@) == Some(chars@),
                toksd == tokenize(chars@),
                run_tokens(
                    crate::board::start_layout(),
                    Color::White,
                    Seq::empty(),
                    toksd,
                    0,
                ) == run_tokens(board.inner_board, board.turn, board.history.0@, toksd, i as int),
            decreases n - i,
        {
            proof {
                assert(toks.deep_view()[i as int] == toks@[i as int]@);
            }
            let t = strip_move_number_exec(&toks[i]);
            if is_ep_tok_test(&t) {
            } else {
                let action = match action_parser_chars(&t, board.turn, &board.inner_board, tables) {
                    Ok(a) => a,
                    Err(e) => {
                        proof {
                            lemma_parse_token_dest_bound(t@);
                            if spec_parse_token(t@) is Some {
                                let p0 = spec_parse_token(t@)->Some_0;
                                if p0.is_take && !board.inner_board.occupied(p0.dest) {
                                    lemma_take_on_empty_has_no_origin(
                                        board.inner_board,
                                        board.turn,
                                        p0,
                                    );
                                }
                            }
                        }
                        return Err(e);
                    },
                };
                match board.perform_actions(action) {
                    Ok(()) => {},
                    Err(e) => {
                        return Err(Error::Board(e));
                    },
                }
            }
            i = i + 1;
        }
        Ok(board)
    }
}

} // verus!

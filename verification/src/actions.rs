//! The closed set of state transitions a game can make.  Composite
//! actions hold their primitive steps in the order chess demands: a
//! capture vacates the destination before the mover arrives, and a
//! promotion follows the pawn's arrival.

use vstd::prelude::*;

use crate::bitmap::bit_at;
use crate::bitmap::mask_clear;
use crate::bitmap::mask_set;
use crate::board::Board;
use crate::board::InnerBoard;
use crate::errors::BoardError;
use crate::history::History;
use crate::pieces::Color;
use crate::pieces::PieceType;
use crate::position::BoardPosition;
use crate::tables::capture_shape_test;
use crate::tables::pawn_capture_shape;
use crate::tables::sq_rank;

verus! {

/// Relocation of one piece within its own layer.
#[derive(Debug, Clone, Copy, PartialEq, Eq, Structural)]
pub struct MoveAction {
    pub from: BoardPosition,
    pub to: BoardPosition,
    pub piece: PieceType,
    pub piece_color: Color,
}

impl MoveAction {
    pub fn new(from: BoardPosition, to: BoardPosition, piece: PieceType, piece_color: Color) -> (r:
        Self)
        ensures
            r == (MoveAction { from, to, piece, piece_color }),
    {
        Self { from, to, piece, piece_color }
    }
}

/// Removal of the captured piece from its square.
#[derive(Debug, Clone, Copy, PartialEq, Eq, Structural)]
pub struct TakeAction {
    pub take_piece: PieceType,
    pub take_piece_color: Color,
    pub pos: BoardPosition,
}

impl TakeAction {
    pub fn new(take_piece: PieceType, take_piece_color: Color, pos: BoardPosition) -> (r: Self)
        ensures
            r == (TakeAction { take_piece, take_piece_color, pos }),
    {
        Self { take_piece, take_piece_color, pos }
    }
}

/// Exchange of a pawn for another kind on the square it reached.
#[derive(Debug, Clone, Copy, PartialEq, Eq, Structural)]
pub struct PromoteAction {
    pub was_piece: PieceType,
    pub pos: BoardPosition,
    pub become_piece: PieceType,
    pub piece_color: Color,
}

impl PromoteAction {
    pub fn new(
        was_piece: PieceType,
        pos: BoardPosition,
        become_piece: PieceType,
        piece_color: Color,
    ) -> (r: Self)
        ensures
            r == (PromoteAction { was_piece, pos, become_piece, piece_color }),
    {
        Self { was_piece, pos, become_piece, piece_color }
    }
}

/// The two castling moves of one colour.
#[derive(Debug, Clone, Copy, PartialEq, Eq, Structural)]
pub enum CastleAction {
    Long(Color),
    Short(Color),
}

/// A pawn capturing in passing: the victim sits behind the destination.
#[derive(Debug, Clone, Copy, PartialEq, Eq, Structural)]
pub struct EnPassant {
    pub from: BoardPosition,
    pub to: BoardPosition,
}

impl EnPassant {
    pub fn new(from: BoardPosition, to: BoardPosition) -> (r: Self)
        ensures
            r == (EnPassant { from, to }),
    {
        Self { from, to }
    }
}

/// Every state transition a game can execute, composites included.
#[derive(Debug, Clone, Copy, PartialEq, Eq, Structural)]
pub enum Actions {
    Move(MoveAction),
    Take(TakeAction, MoveAction),
    Promote(MoveAction, PromoteAction),
    TakeAndPromote(TakeAction, MoveAction, PromoteAction),
    Castle(CastleAction),
    EnPassant(EnPassant),
}

/// Why a bare move step would fail: the mover must stand on `from` and
/// the destination must be empty across the whole board.
pub open spec fn move_step_err(b: InnerBoard, m: MoveAction) -> Option<BoardError> {
    if !b.slot_has(m.piece, m.piece_color, m.from.idx()) {
        Some(BoardError::PieceMissing)
    } else if b.occupied(m.to.idx()) {
        Some(BoardError::PieceWhereMoving)
    } else {
        None
    }
}

/// The board after a move step.
pub open spec fn apply_move_step(b: InnerBoard, m: MoveAction) -> InnerBoard {
    b.with_slot(
        m.piece,
        m.piece_color,
        mask_set(mask_clear(b.side_bits(m.piece, m.piece_color), m.from.idx()), m.to.idx()),
    )
}

/// Why a take step would fail: the named victim must stand on `pos`.
pub open spec fn take_step_err(b: InnerBoard, t: TakeAction) -> Option<BoardError> {
    if !b.slot_has(t.take_piece, t.take_piece_color, t.pos.idx()) {
        Some(BoardError::PieceMissing)
    } else {
        None
    }
}

/// The board after a take step.
pub open spec fn apply_take_step(b: InnerBoard, t: TakeAction) -> InnerBoard {
    b.with_slot(
        t.take_piece,
        t.take_piece_color,
        mask_clear(b.side_bits(t.take_piece, t.take_piece_color), t.pos.idx()),
    )
}

/// Why a promote step would fail: the old kind must stand on `pos`, and
/// after its removal the new kind's slot there must be free.
pub open spec fn promote_step_err(b: InnerBoard, p: PromoteAction) -> Option<BoardError> {
    if !b.slot_has(p.was_piece, p.piece_color, p.pos.idx()) {
        Some(BoardError::PieceMissing)
    } else {
        let b1 = b.with_slot(
            p.was_piece,
            p.piece_color,
            mask_clear(b.side_bits(p.was_piece, p.piece_color), p.pos.idx()),
        );
        if b1.slot_has(p.become_piece, p.piece_color, p.pos.idx()) {
            Some(BoardError::PieceMissing)
        } else {
            None
        }
    }
}

/// The board after a promote step.
pub open spec fn apply_promote_step(b: InnerBoard, p: PromoteAction) -> InnerBoard {
    let b1 = b.with_slot(
        p.was_piece,
        p.piece_color,
        mask_clear(b.side_bits(p.was_piece, p.piece_color), p.pos.idx()),
    );
    b1.with_slot(
        p.become_piece,
        p.piece_color,
        mask_set(b1.side_bits(p.become_piece, p.piece_color), p.pos.idx()),
    )
}

/// The colour that castles.
pub open spec fn castle_color(ca: CastleAction) -> Color {
    match ca {
        CastleAction::Long(c) => c,
        CastleAction::Short(c) => c,
    }
}

/// The first square of the castling colour's back rank.
pub open spec fn castle_base(c: Color) -> u64 {
    match c {
        Color::White => 0u64,
        Color::Black => 56u64,
    }
}

/// The king's home square for this castle.
pub open spec fn castle_king_from(ca: CastleAction) -> u64 {
    (castle_base(castle_color(ca)) + 4) as u64
}

/// Where the king lands: two squares towards the rook.
pub open spec fn castle_king_to(ca: CastleAction) -> u64 {
    match ca {
        CastleAction::Short(c) => (castle_base(c) + 6) as u64,
        CastleAction::Long(c) => (castle_base(c) + 2) as u64,
    }
}

/// The rook's home corner for this castle.
pub open spec fn castle_rook_from(ca: CastleAction) -> u64 {
    match ca {
        CastleAction::Short(c) => (castle_base(c) + 7) as u64,
        CastleAction::Long(c) => castle_base(c),
    }
}

/// Where the rook lands: the square the king crossed.
pub open spec fn castle_rook_to(ca: CastleAction) -> u64 {
    match ca {
        CastleAction::Short(c) => (castle_base(c) + 5) as u64,
        CastleAction::Long(c) => (castle_base(c) + 3) as u64,
    }
}

/// The square the king crosses on its way.
pub open spec fn castle_king_cross(ca: CastleAction) -> u64 {
    match ca {
        CastleAction::Short(c) => (castle_base(c) + 5) as u64,
        CastleAction::Long(c) => (castle_base(c) + 3) as u64,
    }
}

/// Every square between king and rook is empty.
pub open spec fn castle_path_clear(b: InnerBoard, ca: CastleAction) -> bool {
    match ca {
        CastleAction::Short(c) => !b.occupied((castle_base(c) + 5) as u64) && !b.occupied(
            (castle_base(c) + 6) as u64,
        ),
        CastleAction::Long(c) => !b.occupied((castle_base(c) + 1) as u64) && !b.occupied(
            (castle_base(c) + 2) as u64,
        ) && !b.occupied((castle_base(c) + 3) as u64),
    }
}

/// Why the board mutation of a castle would fail: king and rook must
/// stand on their home squares and the path between them must be empty.
pub open spec fn castle_step_err(b: InnerBoard, ca: CastleAction) -> Option<BoardError> {
    let c = castle_color(ca);
    if !b.slot_has(PieceType::King, c, castle_king_from(ca)) {
        Some(BoardError::PieceMissing)
    } else if !b.slot_has(PieceType::Rook, c, castle_rook_from(ca)) {
        Some(BoardError::PieceMissing)
    } else if !castle_path_clear(b, ca) {
        Some(BoardError::PieceWhereMoving)
    } else {
        None
    }
}

/// The board after a castle: king two squares over, rook beside it.
pub open spec fn apply_castle_step(b: InnerBoard, ca: CastleAction) -> InnerBoard {
    let c = castle_color(ca);
    let b1 = b.with_slot(
        PieceType::King,
        c,
        mask_set(
            mask_clear(b.side_bits(PieceType::King, c), castle_king_from(ca)),
            castle_king_to(ca),
        ),
    );
    b1.with_slot(
        PieceType::Rook,
        c,
        mask_set(
            mask_clear(b1.side_bits(PieceType::Rook, c), castle_rook_from(ca)),
            castle_rook_to(ca),
        ),
    )
}

/// Which colour an en-passant capture belongs to, read off the board:
/// the mover's own pawn must stand on `from` and step one diagonal
/// forward onto the rank en passant reaches for that colour.
pub open spec fn ep_color(b: InnerBoard, e: EnPassant) -> Option<Color> {
    if b.slot_has(PieceType::Pawn, Color::White, e.from.idx()) && pawn_capture_shape(
        Color::White,
        e.from.idx(),
        e.to.idx(),
    ) && sq_rank(e.to.idx()) == 5 {
        Some(Color::White)
    } else if b.slot_has(PieceType::Pawn, Color::Black, e.from.idx()) && pawn_capture_shape(
        Color::Black,
        e.from.idx(),
        e.to.idx(),
    ) && sq_rank(e.to.idx()) == 2 {
        Some(Color::Black)
    } else {
        None
    }
}

/// The square of the pawn captured in passing: behind the destination,
/// relative to the capturing colour.
pub open spec fn ep_victim(color: Color, to: u64) -> u64 {
    match color {
        Color::White => (to - 8) as u64,
        Color::Black => (to + 8) as u64,
    }
}

/// Why an en-passant step would fail: the capture must have a colour,
/// the victim pawn must sit behind the destination, and the destination
/// itself must be empty.
pub open spec fn ep_step_err(b: InnerBoard, e: EnPassant) -> Option<BoardError> {
    match ep_color(b, e) {
        None => Some(BoardError::PieceMissing),
        Some(c) => {
            if !b.slot_has(PieceType::Pawn, c.spec_flip(), ep_victim(c, e.to.idx())) {
                Some(BoardError::PieceMissing)
            } else if b.occupied(e.to.idx()) {
                Some(BoardError::PieceWhereMoving)
            } else {
                None
            }
        },
    }
}

/// The board after an en-passant capture: the victim pawn vanishes and
/// the capturing pawn takes the destination.
pub open spec fn apply_ep_step(b: InnerBoard, e: EnPassant) -> InnerBoard {
    match ep_color(b, e) {
        None => b,
        Some(c) => {
            let b1 = b.with_slot(
                PieceType::Pawn,
                c.spec_flip(),
                mask_clear(b.side_bits(PieceType::Pawn, c.spec_flip()), ep_victim(c, e.to.idx())),
            );
            b1.with_slot(
                PieceType::Pawn,
                c,
                mask_set(
                    mask_clear(b1.side_bits(PieceType::Pawn, c), e.from.idx()),
                    e.to.idx(),
                ),
            )
        },
    }
}

/// Why executing `a` on `b` would fail, checking the primitive steps in
/// their fixed order: take before move, move before promote.  A take
/// aimed at the mover's own colour fails with `SameColor` before
/// anything else is looked at.
pub open spec fn action_err(b: InnerBoard, a: Actions) -> Option<BoardError> {
    match a {
        Actions::Move(m) => move_step_err(b, m),
        Actions::Take(t, m) => if t.take_piece_color == m.piece_color {
            Some(BoardError::SameColor)
        } else {
            match take_step_err(b, t) {
                Some(e) => Some(e),
                None => move_step_err(apply_take_step(b, t), m),
            }
        },
        Actions::Promote(m, p) => match move_step_err(b, m) {
            Some(e) => Some(e),
            None => promote_step_err(apply_move_step(b, m), p),
        },
        Actions::TakeAndPromote(t, m, p) => if t.take_piece_color == m.piece_color {
            Some(BoardError::SameColor)
        } else {
            match take_step_err(b, t) {
                Some(e) => Some(e),
                None => match move_step_err(apply_take_step(b, t), m) {
                    Some(e) => Some(e),
                    None => promote_step_err(apply_move_step(apply_take_step(b, t), m), p),
                },
            }
        },
        Actions::Castle(ca) => castle_step_err(b, ca),
        Actions::EnPassant(e) => ep_step_err(b, e),
    }
}

/// The board after executing `a`: the primitive steps applied in their
/// fixed order.
pub open spec fn apply_action(b: InnerBoard, a: Actions) -> InnerBoard {
    match a {
        Actions::Move(m) => apply_move_step(b, m),
        Actions::Take(t, m) => apply_move_step(apply_take_step(b, t), m),
        Actions::Promote(m, p) => apply_promote_step(apply_move_step(b, m), p),
        Actions::TakeAndPromote(t, m, p) => apply_promote_step(
            apply_move_step(apply_take_step(b, t), m),
            p,
        ),
        Actions::Castle(ca) => apply_castle_step(b, ca),
        Actions::EnPassant(e) => apply_ep_step(b, e),
    }
}

fn exec_move_step(board: &mut InnerBoard, m: MoveAction) -> (r: Result<(), BoardError>)
    ensures
        match r {
            Ok(()) => move_step_err(*old(board), m) is None && *final(board) == apply_move_step(
                *old(board),
                m,
            ),
            Err(e) => move_step_err(*old(board), m) == Some(e) && *final(board) == *old(board),
        },
{
    if !board.slot_test(m.piece, m.piece_color, &m.from) {
        return Err(BoardError::PieceMissing);
    }
    if board.has(&m.to) {
        return Err(BoardError::PieceWhereMoving);
    }
    board.slot_move_unchecked(m.piece, m.piece_color, &m.from, &m.to);
    Ok(())
}

fn exec_take_step(board: &mut InnerBoard, t: TakeAction) -> (r: Result<(), BoardError>)
    ensures
        match r {
            Ok(()) => take_step_err(*old(board), t) is None && *final(board) == apply_take_step(
                *old(board),
                t,
            ),
            Err(e) => take_step_err(*old(board), t) == Some(e) && *final(board) == *old(board),
        },
{
    if !board.slot_test(t.take_piece, t.take_piece_color, &t.pos) {
        return Err(BoardError::PieceMissing);
    }
    board.slot_clear_unchecked(t.take_piece, t.take_piece_color, &t.pos);
    Ok(())
}

/// On failure the scratch board may be left half done; the caller
/// discards it, so only the error itself is promised then.
fn exec_promote_step(board: &mut InnerBoard, p: PromoteAction) -> (r: Result<(), BoardError>)
    ensures
        match r {
            Ok(()) => promote_step_err(*old(board), p) is None && *final(board)
                == apply_promote_step(*old(board), p),
            Err(e) => promote_step_err(*old(board), p) == Some(e),
        },
{
    if !board.slot_test(p.was_piece, p.piece_color, &p.pos) {
        return Err(BoardError::PieceMissing);
    }
    board.slot_clear_unchecked(p.was_piece, p.piece_color, &p.pos);
    if board.slot_test(p.become_piece, p.piece_color, &p.pos) {
        return Err(BoardError::PieceMissing);
    }
    board.slot_set_unchecked(p.become_piece, p.piece_color, &p.pos);
    Ok(())
}

fn exec_castle_step(board: &mut InnerBoard, ca: CastleAction) -> (r: Result<(), BoardError>)
    ensures
        match r {
            Ok(()) => castle_step_err(*old(board), ca) is None && *final(board)
                == apply_castle_step(*old(board), ca),
            Err(e) => castle_step_err(*old(board), ca) == Some(e) && *final(board) == *old(board),
        },
{
    let color = match ca {
        CastleAction::Short(c) => c,
        CastleAction::Long(c) => c,
    };
    let base: u64 = match color {
        Color::White => 0,
        Color::Black => 56,
    };
    let kf = BoardPosition::from_num(base + 4);
    let (kt, rf, rt) = match ca {
        CastleAction::Short(_) => (
            BoardPosition::from_num(base + 6),
            BoardPosition::from_num(base + 7),
            BoardPosition::from_num(base + 5),
        ),
        CastleAction::Long(_) => (
            BoardPosition::from_num(base + 2),
            BoardPosition::from_num(base),
            BoardPosition::from_num(base + 3),
        ),
    };
    if !board.slot_test(PieceType::King, color, &kf) {
        return Err(BoardError::PieceMissing);
    }
    if !board.slot_test(PieceType::Rook, color, &rf) {
        return Err(BoardError::PieceMissing);
    }
    let blocked = match ca {
        CastleAction::Short(_) => board.has(&BoardPosition::from_num(base + 5)) || board.has(
            &BoardPosition::from_num(base + 6),
        ),
        CastleAction::Long(_) => board.has(&BoardPosition::from_num(base + 1)) || board.has(
            &BoardPosition::from_num(base + 2),
        ) || board.has(&BoardPosition::from_num(base + 3)),
    };
    if blocked {
        return Err(BoardError::PieceWhereMoving);
    }
    board.slot_move_unchecked(PieceType::King, color, &kf, &kt);
    board.slot_move_unchecked(PieceType::Rook, color, &rf, &rt);
    Ok(())
}

/// Which colour the en-passant capture `e` would belong to on `board`.
pub(crate) fn ep_color_test(board: &InnerBoard, e: &EnPassant) -> (r: Option<Color>)
    ensures
        r == ep_color(*board, *e),
{
    let f = e.from.to_num();
    let t = e.to.to_num();
    if board.slot_test(PieceType::Pawn, Color::White, &e.from) && capture_shape_test(
        PieceType::Pawn,
        Color::White,
        f,
        t,
    ) && t / 8 == 5 {
        Some(Color::White)
    } else if board.slot_test(PieceType::Pawn, Color::Black, &e.from) && capture_shape_test(
        PieceType::Pawn,
        Color::Black,
        f,
        t,
    ) && t / 8 == 2 {
        Some(Color::Black)
    } else {
        None
    }
}

fn exec_ep_step(board: &mut InnerBoard, e: EnPassant) -> (r: Result<(), BoardError>)
    ensures
        match r {
            Ok(()) => ep_step_err(*old(board), e) is None && *final(board) == apply_ep_step(
                *old(board),
                e,
            ),
            Err(er) => ep_step_err(*old(board), e) == Some(er) && *final(board) == *old(board),
        },
{
    let t = e.to.to_num();
    let color_opt: Option<Color> = ep_color_test(board, &e);
    let c = match color_opt {
        Some(c) => c,
        None => {
            return Err(BoardError::PieceMissing);
        },
    };
    let victim = match c {
        Color::White => BoardPosition::from_num(t - 8),
        Color::Black => BoardPosition::from_num(t + 8),
    };
    if !board.slot_test(PieceType::Pawn, c.flip(), &victim) {
        return Err(BoardError::PieceMissing);
    }
    if board.has(&e.to) {
        return Err(BoardError::PieceWhereMoving);
    }
    board.slot_clear_unchecked(PieceType::Pawn, c.flip(), &victim);
    board.slot_move_unchecked(PieceType::Pawn, c, &e.from, &e.to);
    Ok(())
}

impl Actions {
    /// Executes this action on the board, atomically: every primitive
    /// step is checked on a scratch copy, and the board itself changes
    /// only when all of them went through.  A failure reports the first
    /// step that would refuse, with the board untouched.
    pub fn execute(self, board: &mut InnerBoard) -> (r: Result<(), BoardError>)
        ensures
            match r {
                Ok(()) => action_err(*old(board), self) is None && *final(board) == apply_action(
                    *old(board),
                    self,
                ),
                Err(e) => action_err(*old(board), self) == Some(e) && *final(board) == *old(board),
            },
    {
        let mut tmp = *board;
        let result = match self {
            Actions::Move(m) => exec_move_step(&mut tmp, m),
            Actions::Take(t, m) => {
                if t.take_piece_color == m.piece_color {
                    Err(BoardError::SameColor)
                } else {
                    match exec_take_step(&mut tmp, t) {
                        Ok(()) => exec_move_step(&mut tmp, m),
                        Err(e) => Err(e),
                    }
                }
            },
            Actions::Promote(m, p) => match exec_move_step(&mut tmp, m) {
                Ok(()) => exec_promote_step(&mut tmp, p),
                Err(e) => Err(e),
            },
            Actions::TakeAndPromote(t, m, p) => {
                if t.take_piece_color == m.piece_color {
                    Err(BoardError::SameColor)
                } else {
                    match exec_take_step(&mut tmp, t) {
                        Ok(()) => match exec_move_step(&mut tmp, m) {
                            Ok(()) => exec_promote_step(&mut tmp, p),
                            Err(e) => Err(e),
                        },
                        Err(e) => Err(e),
                    }
                }
            },
            Actions::Castle(ca) => exec_castle_step(&mut tmp, ca),
            Actions::EnPassant(e) => exec_ep_step(&mut tmp, e),
        };
        match result {
            Ok(()) => {
                *board = tmp;
                Ok(())
            },
            Err(e) => Err(e),
        }
    }
}

/// Clearing a slot bit never breaks the board invariant.
proof fn lemma_slot_clear_preserves_wf(b: InnerBoard, kind: PieceType, c: Color, at: u64)
    requires
        b.wf(),
        at < 64,
    ensures
        b.with_slot(kind, c, mask_clear(b.side_bits(kind, c), at)).wf(),
{
    broadcast use crate::bitmap::group_bit_lemmas;

    let nb = b.with_slot(kind, c, mask_clear(b.side_bits(kind, c), at));
    assert forall|j: u64, k1: PieceType, c1: Color, k2: PieceType, c2: Color|
        j < 64 && #[trigger] nb.slot_has(k1, c1, j) && #[trigger] nb.slot_has(k2, c2, j) implies k1
        == k2 && c1 == c2 by {
        assert(b.slot_has(k1, c1, j));
        assert(b.slot_has(k2, c2, j));
    }
}

/// Setting a slot bit on a square nothing occupies keeps the board
/// invariant.
proof fn lemma_slot_insert_preserves_wf(b: InnerBoard, kind: PieceType, c: Color, at: u64)
    requires
        b.wf(),
        at < 64,
        !b.occupied(at),
    ensures
        b.with_slot(kind, c, mask_set(b.side_bits(kind, c), at)).wf(),
{
    broadcast use crate::bitmap::group_bit_lemmas;

    crate::board::lemma_occupied_iff(b, at);
    let nb = b.with_slot(kind, c, mask_set(b.side_bits(kind, c), at));
    assert forall|j: u64, k1: PieceType, c1: Color, k2: PieceType, c2: Color|
        j < 64 && #[trigger] nb.slot_has(k1, c1, j) && #[trigger] nb.slot_has(k2, c2, j) implies k1
        == k2 && c1 == c2 by {
        if j != at {
            assert(b.slot_has(k1, c1, j));
            assert(b.slot_has(k2, c2, j));
        } else {
            assert(!b.slot_has(k1, c1, at));
            assert(!b.slot_has(k2, c2, at));
        }
    }
}

/// Moving a slot bit onto a square nothing occupies keeps the board
/// invariant.
proof fn lemma_slot_move_preserves_wf(b: InnerBoard, kind: PieceType, c: Color, from: u64, to: u64)
    requires
        b.wf(),
        from < 64,
        to < 64,
        !b.occupied(to),
    ensures
        b.with_slot(kind, c, mask_set(mask_clear(b.side_bits(kind, c), from), to)).wf(),
{
    broadcast use crate::bitmap::group_bit_lemmas;

    crate::board::lemma_occupied_iff(b, to);
    let nb = b.with_slot(kind, c, mask_set(mask_clear(b.side_bits(kind, c), from), to));
    assert forall|j: u64, k1: PieceType, c1: Color, k2: PieceType, c2: Color|
        j < 64 && #[trigger] nb.slot_has(k1, c1, j) && #[trigger] nb.slot_has(k2, c2, j) implies k1
        == k2 && c1 == c2 by {
        if j != to {
            assert(b.slot_has(k1, c1, j));
            assert(b.slot_has(k2, c2, j));
        } else {
            assert(!b.slot_has(k1, c1, to) ==> k1 == kind && c1 == c);
            assert(!b.slot_has(k2, c2, to) ==> k2 == kind && c2 == c);
            assert(!b.occupied(to));
        }
    }
}

/// An action that executes keeps the board invariant: no two slots
/// ever come to share a square.
pub proof fn lemma_action_preserves_wf(b: InnerBoard, a: Actions)
    requires
        b.wf(),
        action_err(b, a) is None,
    ensures
        apply_action(b, a).wf(),
{
    broadcast use crate::position::lemma_idx_bound;

    match a {
        Actions::Move(m) => {
            lemma_slot_move_preserves_wf(
                b,
                m.piece,
                m.piece_color,
                m.from.idx(),
                m.to.idx(),
            );
        },
        Actions::Take(t, m) => {
            lemma_slot_clear_preserves_wf(b, t.take_piece, t.take_piece_color, t.pos.idx());
            let b1 = apply_take_step(b, t);
            lemma_slot_move_preserves_wf(b1, m.piece, m.piece_color, m.from.idx(), m.to.idx());
        },
        Actions::Promote(m, p) => {
            lemma_slot_move_preserves_wf(b, m.piece, m.piece_color, m.from.idx(), m.to.idx());
            let b1 = apply_move_step(b, m);
            lemma_promote_preserves_wf(b1, p);
        },
        Actions::TakeAndPromote(t, m, p) => {
            lemma_slot_clear_preserves_wf(b, t.take_piece, t.take_piece_color, t.pos.idx());
            let b1 = apply_take_step(b, t);
            lemma_slot_move_preserves_wf(b1, m.piece, m.piece_color, m.from.idx(), m.to.idx());
            let b2 = apply_move_step(b1, m);
            lemma_promote_preserves_wf(b2, p);
        },
        Actions::Castle(ca) => {
            lemma_castle_preserves_wf(b, ca);
        },
        Actions::EnPassant(e) => {
            lemma_ep_preserves_wf(b, e);
        },
    }
}

/// A promote step that passes its checks keeps the board invariant.
proof fn lemma_promote_preserves_wf(b: InnerBoard, p: PromoteAction)
    requires
        b.wf(),
        promote_step_err(b, p) is None,
    ensures
        apply_promote_step(b, p).wf(),
{
    broadcast use crate::bitmap::group_bit_lemmas, crate::position::lemma_idx_bound;

    let at = p.pos.idx();
    lemma_slot_clear_preserves_wf(b, p.was_piece, p.piece_color, at);
    let b1 = b.with_slot(
        p.was_piece,
        p.piece_color,
        mask_clear(b.side_bits(p.was_piece, p.piece_color), at),
    );
    // After the removal nothing is left on the square: the invariant
    // let only the removed piece stand there.
    crate::board::lemma_occupied_iff(b, at);
    crate::board::lemma_occupied_iff(b1, at);
    assert(b.slot_has(p.was_piece, p.piece_color, at));
    assert forall|k: PieceType, cc: Color| !(#[trigger] b1.slot_has(k, cc, at)) by {
        if k == p.was_piece && cc == p.piece_color {
            assert(!bit_at(mask_clear(b.side_bits(k, cc), at), at));
        } else {
            assert(b1.side_bits(k, cc) == b.side_bits(k, cc));
            if b.slot_has(k, cc, at) {
                assert(b.slot_has(p.was_piece, p.piece_color, at));
            }
        }
    }
    assert(!b1.occupied(at));
    lemma_slot_insert_preserves_wf(b1, p.become_piece, p.piece_color, at);
}

/// A castle step that passes its checks keeps the board invariant.
proof fn lemma_castle_preserves_wf(b: InnerBoard, ca: CastleAction)
    requires
        b.wf(),
        castle_step_err(b, ca) is None,
    ensures
        apply_castle_step(b, ca).wf(),
{
    broadcast use crate::bitmap::group_bit_lemmas;

    let c = castle_color(ca);
    let kf = castle_king_from(ca);
    let kt = castle_king_to(ca);
    let rf = castle_rook_from(ca);
    let rt = castle_rook_to(ca);
    lemma_slot_move_preserves_wf(b, PieceType::King, c, kf, kt);
    let b1 = b.with_slot(
        PieceType::King,
        c,
        mask_set(mask_clear(b.side_bits(PieceType::King, c), kf), kt),
    );
    crate::board::lemma_occupied_iff(b, rt);
    crate::board::lemma_occupied_iff(b1, rt);
    assert forall|k: PieceType, cc: Color| !(#[trigger] b1.slot_has(k, cc, rt)) by {
        if k == PieceType::King && cc == c {
            assert(rt != kt);
            assert(!b.slot_has(PieceType::King, c, rt));
        } else {
            assert(b1.side_bits(k, cc) == b.side_bits(k, cc));
        }
    }
    assert(!b1.occupied(rt));
    lemma_slot_move_preserves_wf(b1, PieceType::Rook, c, rf, rt);
}

/// An en-passant step that passes its checks keeps the board invariant.
proof fn lemma_ep_preserves_wf(b: InnerBoard, e: EnPassant)
    requires
        b.wf(),
        ep_step_err(b, e) is None,
    ensures
        apply_ep_step(b, e).wf(),
{
    broadcast use crate::bitmap::group_bit_lemmas, crate::position::lemma_idx_bound;

    let c = ep_color(b, e)->Some_0;
    let v = ep_victim(c, e.to.idx());
    lemma_slot_clear_preserves_wf(b, PieceType::Pawn, c.spec_flip(), v);
    let b1 = b.with_slot(
        PieceType::Pawn,
        c.spec_flip(),
        mask_clear(b.side_bits(PieceType::Pawn, c.spec_flip()), v),
    );
    crate::board::lemma_occupied_iff(b, e.to.idx());
    crate::board::lemma_occupied_iff(b1, e.to.idx());
    assert forall|k: PieceType, cc: Color| !(#[trigger] b1.slot_has(k, cc, e.to.idx())) by {
        if k == PieceType::Pawn && cc == c.spec_flip() {
            assert(!b.slot_has(PieceType::Pawn, c.spec_flip(), e.to.idx()));
        } else {
            assert(b1.side_bits(k, cc) == b.side_bits(k, cc));
        }
    }
    assert(!b1.occupied(e.to.idx()));
    lemma_slot_move_preserves_wf(b1, PieceType::Pawn, c, e.from.idx(), e.to.idx());
}

/// The board after trying `a`: changed when the action executes,
/// untouched when it refuses.
pub open spec fn step_board(b: InnerBoard, a: Actions) -> InnerBoard {
    if action_err(b, a) is None {
        apply_action(b, a)
    } else {
        b
    }
}

/// The board after trying a whole sequence of actions in order.
pub open spec fn replay(b: InnerBoard, s: Seq<Actions>) -> InnerBoard
    decreases s.len(),
{
    if s.len() == 0 {
        b
    } else {
        step_board(replay(b, s.drop_last()), s.last())
    }
}

/// The board invariant holds after every sequence of actions executed
/// from a board that satisfies it; in particular `validate` stays true
/// from the standard starting position, whatever was played.
pub proof fn lemma_replay_preserves_wf(b: InnerBoard, s: Seq<Actions>)
    requires
        b.wf(),
    ensures
        replay(b, s).wf(),
        replay(b, s).spec_validate(),
    decreases s.len(),
{
    if s.len() > 0 {
        lemma_replay_preserves_wf(b, s.drop_last());
        let prev = replay(b, s.drop_last());
        if action_err(prev, s.last()) is None {
            lemma_action_preserves_wf(prev, s.last());
        }
    }
    crate::board::lemma_wf_implies_validate(replay(b, s));
}

/// From the standard starting position, any sequence of executed
/// actions leaves a board that still satisfies the invariant, and so
/// still passes `validate`.
pub proof fn lemma_game_from_start_validates(s: Seq<Actions>)
    ensures
        replay(crate::board::start_layout(), s).wf(),
        replay(crate::board::start_layout(), s).spec_validate(),
{
    crate::board::lemma_start_layout_wf(crate::board::start_layout());
    lemma_replay_preserves_wf(crate::board::start_layout(), s);
}

impl InnerBoard {
    /// Executes one action on these layers; see [`Actions::execute`].
    pub fn perform_actions(&mut self, actions: Actions) -> (r: Result<(), BoardError>)
        ensures
            match r {
                Ok(()) => action_err(*old(self), actions) is None && *final(self) == apply_action(
                    *old(self),
                    actions,
                ),
                Err(e) => action_err(*old(self), actions) == Some(e) && *final(self) == *old(self),
            },
    {
        actions.execute(self)
    }
}

/// Whether executing `a` moved something off square `j`.
pub open spec fn action_moved_from(a: Actions, j: u64) -> bool {
    match a {
        Actions::Move(m) => m.from.idx() == j,
        Actions::Take(_, m) => m.from.idx() == j,
        Actions::Promote(m, _) => m.from.idx() == j,
        Actions::TakeAndPromote(_, m, _) => m.from.idx() == j,
        Actions::Castle(ca) => castle_king_from(ca) == j || castle_rook_from(ca) == j,
        Actions::EnPassant(e) => e.from.idx() == j,
    }
}

/// The square of the pawn an en-passant action captures, read off the
/// action alone: behind the destination, against the travel direction.
pub open spec fn ep_victim_of(e: EnPassant) -> u64 {
    if e.to.rank.index() > e.from.rank.index() {
        (e.to.idx() - 8) as u64
    } else {
        (e.to.idx() + 8) as u64
    }
}

/// Whether executing `a` captured the piece on square `j`.
pub open spec fn action_taken_at(a: Actions, j: u64) -> bool {
    match a {
        Actions::Take(t, _) => t.pos.idx() == j,
        Actions::TakeAndPromote(t, _, _) => t.pos.idx() == j,
        Actions::EnPassant(e) => ep_victim_of(e) == j,
        _ => false,
    }
}

/// Castling rights still stand: nothing in the log ever left the
/// king's or the rook's home square, and the rook was never captured
/// on its corner.
pub open spec fn castle_rights(h: Seq<Actions>, ca: CastleAction) -> bool {
    forall|i: int|
        0 <= i < h.len() ==> !action_moved_from(#[trigger] h[i], castle_king_from(ca))
            && !action_moved_from(h[i], castle_rook_from(ca)) && !action_taken_at(
            h[i],
            castle_rook_from(ca),
        )
}

/// The full legality of a castle beyond the board mutation itself:
/// rights from the history, and the king neither in check, nor
/// crossing, nor landing on an attacked square.
pub open spec fn castle_allowed(b: InnerBoard, h: Seq<Actions>, ca: CastleAction) -> bool {
    &&& castle_rights(h, ca)
    &&& !crate::movegen::attacked(b, castle_color(ca).spec_flip(), castle_king_from(ca))
    &&& !crate::movegen::attacked(b, castle_color(ca).spec_flip(), castle_king_cross(ca))
    &&& !crate::movegen::attacked(b, castle_color(ca).spec_flip(), castle_king_to(ca))
}

/// The en-passant condition: the log's most recent entry is exactly
/// the enemy pawn's two-square advance onto the square being captured.
pub open spec fn ep_allowed(b: InnerBoard, h: Seq<Actions>, e: EnPassant) -> bool {
    match ep_color(b, e) {
        None => false,
        Some(c) => h.len() > 0 && match h.last() {
            Actions::Move(m) => m.piece == PieceType::Pawn && m.piece_color == c.spec_flip()
                && m.to.idx() == ep_victim(c, e.to.idx()) && m.from.idx() == (match c {
                Color::White => (e.to.idx() + 8) as u64,
                Color::Black => (e.to.idx() - 8) as u64,
            }),
            _ => false,
        },
    }
}

/// Why a game would refuse `a` before touching the board: a castle
/// without its rights or through check, or an en-passant capture whose
/// moment has passed.  `PieceNotInPlay` reports both.
pub open spec fn board_gate_err(b: InnerBoard, h: Seq<Actions>, a: Actions) -> Option<BoardError> {
    match a {
        Actions::Castle(ca) => if !castle_allowed(b, h, ca) {
            Some(BoardError::PieceNotInPlay)
        } else {
            None
        },
        Actions::EnPassant(e) => if !ep_allowed(b, h, e) {
            Some(BoardError::PieceNotInPlay)
        } else {
            None
        },
        _ => None,
    }
}

fn castle_color_x(ca: CastleAction) -> (r: Color)
    ensures
        r == castle_color(ca),
{
    match ca {
        CastleAction::Short(c) => c,
        CastleAction::Long(c) => c,
    }
}

fn castle_king_from_x(ca: CastleAction) -> (r: u64)
    ensures
        r == castle_king_from(ca),
        r < 64,
{
    match castle_color_x(ca) {
        Color::White => 4,
        Color::Black => 60,
    }
}

fn castle_king_to_x(ca: CastleAction) -> (r: u64)
    ensures
        r == castle_king_to(ca),
        r < 64,
{
    match ca {
        CastleAction::Short(Color::White) => 6,
        CastleAction::Short(Color::Black) => 62,
        CastleAction::Long(Color::White) => 2,
        CastleAction::Long(Color::Black) => 58,
    }
}

fn castle_rook_from_x(ca: CastleAction) -> (r: u64)
    ensures
        r == castle_rook_from(ca),
        r < 64,
{
    match ca {
        CastleAction::Short(Color::White) => 7,
        CastleAction::Short(Color::Black) => 63,
        CastleAction::Long(Color::White) => 0,
        CastleAction::Long(Color::Black) => 56,
    }
}

fn castle_king_cross_x(ca: CastleAction) -> (r: u64)
    ensures
        r == castle_king_cross(ca),
        r < 64,
{
    match ca {
        CastleAction::Short(Color::White) => 5,
        CastleAction::Short(Color::Black) => 61,
        CastleAction::Long(Color::White) => 3,
        CastleAction::Long(Color::Black) => 59,
    }
}

fn action_moved_from_test(a: &Actions, j: u64) -> (r: bool)
    ensures
        r == action_moved_from(*a, j),
{
    match a {
        Actions::Move(m) => m.from.to_num() == j,
        Actions::Take(_, m) => m.from.to_num() == j,
        Actions::Promote(m, _) => m.from.to_num() == j,
        Actions::TakeAndPromote(_, m, _) => m.from.to_num() == j,
        Actions::Castle(ca) => castle_king_from_x(*ca) == j || castle_rook_from_x(*ca) == j,
        Actions::EnPassant(e) => e.from.to_num() == j,
    }
}

fn action_taken_at_test(a: &Actions, j: u64) -> (r: bool)
    ensures
        r == action_taken_at(*a, j),
{
    match a {
        Actions::Take(t, _) => t.pos.to_num() == j,
        Actions::TakeAndPromote(t, _, _) => t.pos.to_num() == j,
        Actions::EnPassant(e) => {
            let t = e.to.to_num();
            let victim = if e.to.rank.as_u8() > e.from.rank.as_u8() {
                t - 8
            } else {
                t + 8
            };
            victim == j
        },
        _ => false,
    }
}

/// Decides `castle_allowed`: scans the log for lost rights and the
/// board for checks on the king's squares.
fn castle_allowed_check(b: &InnerBoard, h: &History, ca: CastleAction) -> (r: bool)
    ensures
        r == castle_allowed(*b, h.0@, ca),
{
    let kf = castle_king_from_x(ca);
    let rf = castle_rook_from_x(ca);
    let n = h.0.len();
    let mut i: usize = 0;
    while i < n
        invariant
            i <= n,
            n == h.0@.len(),
            forall|i2: int|
                0 <= i2 < i ==> !action_moved_from(#[trigger] h.0@[i2], castle_king_from(ca))
                    && !action_moved_from(h.0@[i2], castle_rook_from(ca)) && !action_taken_at(
                    h.0@[i2],
                    castle_rook_from(ca),
                ),
            kf == castle_king_from(ca),
            rf == castle_rook_from(ca),
        decreases n - i,
    {
        let a = &h.0[i];
        if action_moved_from_test(a, kf) || action_moved_from_test(a, rf) || action_taken_at_test(
            a,
            rf,
        ) {
            return false;
        }
        i = i + 1;
    }
    let opp = castle_color_x(ca).flip();
    if crate::movegen::is_square_attacked(b, opp, kf) {
        return false;
    }
    if crate::movegen::is_square_attacked(b, opp, castle_king_cross_x(ca)) {
        return false;
    }
    if crate::movegen::is_square_attacked(b, opp, castle_king_to_x(ca)) {
        return false;
    }
    true
}

/// Whether the board mutation of the en-passant capture `e` would go
/// through.
pub(crate) fn ep_step_ok(b: &InnerBoard, e: &EnPassant) -> (r: bool)
    ensures
        r == (ep_step_err(*b, *e) is None),
{
    match ep_color_test(b, e) {
        None => false,
        Some(c) => {
            let t = e.to.to_num();
            let victim = match c {
                Color::White => BoardPosition::from_num(t - 8),
                Color::Black => BoardPosition::from_num(t + 8),
            };
            b.slot_test(PieceType::Pawn, c.flip(), &victim) && !b.has(&e.to)
        },
    }
}

/// Decides `ep_allowed`: reads the capture's colour off the board and
/// holds the log's most recent entry against the required double push.
pub(crate) fn ep_allowed_check(b: &InnerBoard, h: &History, e: &EnPassant) -> (r: bool)
    ensures
        r == ep_allowed(*b, h.0@, *e),
{
    let c = match ep_color_test(b, e) {
        Some(c) => c,
        None => {
            return false;
        },
    };
    let n = h.0.len();
    if n == 0 {
        return false;
    }
    let last = &h.0[n - 1];
    match last {
        Actions::Move(m) => {
            let t = e.to.to_num();
            let (victim, origin) = match c {
                Color::White => (t - 8, t + 8),
                Color::Black => (t + 8, t - 8),
            };
            m.piece == PieceType::Pawn && m.piece_color == c.flip() && m.to.to_num() == victim
                && m.from.to_num() == origin
        },
        _ => false,
    }
}

/// The board reached by executing `s[i..]` from `b0`, each step
/// required to succeed; `None` as soon as one refuses.
pub open spec fn replay_exact(b0: InnerBoard, s: Seq<Actions>, i: int) -> Option<InnerBoard>
    decreases s.len() - i,
{
    if i < 0 || i >= s.len() {
        Some(b0)
    } else if action_err(b0, s[i]) is None {
        replay_exact(apply_action(b0, s[i]), s, i + 1)
    } else {
        None
    }
}

impl Board {
    /// Whether this game's log replays: executed in order from the
    /// standard starting layout, every entry goes through and the
    /// result is exactly the current board.
    pub fn validate_history(&self) -> (r: bool)
        ensures
            r == (replay_exact(crate::board::start_layout(), self.history.0@, 0) == Some(
                self.inner_board,
            )),
    {
        let mut b = InnerBoard::default();
        let n = self.history.0.len();
        let mut i: usize = 0;
        while i < n
            invariant
                i <= n,
                n == self.history.0@.len(),
                replay_exact(crate::board::start_layout(), self.history.0@, 0) == replay_exact(
                    b,
                    self.history.0@,
                    i as int,
                ),
            decreases n - i,
        {
            let a = self.history.0[i];
            match a.execute(&mut b) {
                Ok(()) => {},
                Err(_) => {
                    return false;
                },
            }
            i = i + 1;
        }
        b == self.inner_board
    }
}

impl Board {
    /// Executes one action as a turn of the game.  Castles and
    /// en-passant captures are first held against the history and, for
    /// castles, against the opponent's attacks; then the board mutates
    /// atomically, the action is appended to the log, and the turn
    /// passes.  On any failure nothing changes.
    pub fn perform_actions(&mut self, actions: Actions) -> (r: Result<(), BoardError>)
        ensures
            match r {
                Ok(()) => {
                    &&& board_gate_err(old(self).inner_board, old(self).history.0@, actions)
                        is None
                    &&& action_err(old(self).inner_board, actions) is None
                    &&& final(self).inner_board == apply_action(old(self).inner_board, actions)
                    &&& final(self).history.0@ == old(self).history.0@.push(actions)
                    &&& final(self).turn == old(self).turn.spec_flip()
                },
                Err(e) => {
                    &&& (board_gate_err(old(self).inner_board, old(self).history.0@, actions)
                        == Some(e) || (board_gate_err(
                        old(self).inner_board,
                        old(self).history.0@,
                        actions,
                    ) is None && action_err(old(self).inner_board, actions) == Some(e)))
                    &&& final(self).inner_board == old(self).inner_board
                    &&& final(self).history.0@ == old(self).history.0@
                    &&& final(self).turn == old(self).turn
                },
            },
    {
        let gate_ok = match &actions {
            Actions::Castle(ca) => castle_allowed_check(&self.inner_board, &self.history, *ca),
            Actions::EnPassant(e) => ep_allowed_check(&self.inner_board, &self.history, e),
            _ => true,
        };
        if !gate_ok {
            return Err(BoardError::PieceNotInPlay);
        }
        match self.inner_board.perform_actions(actions) {
            Ok(()) => {
                self.history.add(actions);
                self.turn = self.turn.flip();
                Ok(())
            },
            Err(e) => Err(e),
        }
    }
}

} // verus!

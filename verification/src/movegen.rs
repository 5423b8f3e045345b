//! Move generation: attack tables intersected with occupancy.  Sliding
//! pieces stop at the first blocker; leapers only need their landing
//! square free of their own colour; pawns push onto empty squares and
//! capture diagonally onto enemy ones.

use vstd::prelude::*;

use crate::actions::Actions;
use crate::actions::EnPassant;
use crate::actions::MoveAction;
use crate::actions::TakeAction;
use crate::bitmap::bit_at;
use crate::board::InnerBoard;
use crate::board::PieceBoard;
use crate::errors::BoardError;
use crate::errors::Error;
use crate::pieces::Color;
use crate::pieces::PieceType;
use crate::position::BoardPosition;
use crate::position::pos_at;
use crate::tables::MoveTables;
use crate::tables::capture_shape;
use crate::tables::capture_shape_test;
use crate::tables::dist;
use crate::tables::move_shape;
use crate::tables::sq_file;
use crate::tables::sq_rank;

verus! {

/// Square `k` lies strictly between `s` and `t` on a straight rank,
/// file or diagonal line.  Off such lines nothing is between.
pub open spec fn between_sq(s: u64, t: u64, k: u64) -> bool {
    let rs = sq_rank(s);
    let fs = sq_file(s);
    let rt = sq_rank(t);
    let ft = sq_file(t);
    let rk = sq_rank(k);
    let fk = sq_file(k);
    ||| (rs == rt && rk == rs && (fs < fk < ft || ft < fk < fs))
    ||| (fs == ft && fk == fs && (rs < rk < rt || rt < rk < rs))
    ||| (dist(rs, rt) == dist(fs, ft) && dist(rs, rk) == dist(fs, fk) && dist(rk, rt) == dist(
        fk,
        ft,
    ) && (rs < rk < rt || rt < rk < rs) && (fs < fk < ft || ft < fk < fs))
}

/// Decides `between_sq` for concrete squares.
pub fn between_test(s: u64, t: u64, k: u64) -> (r: bool)
    requires
        s < 64,
        t < 64,
        k < 64,
    ensures
        r == between_sq(s, t, k),
{
    let rs = s / 8;
    let fs = s % 8;
    let rt = t / 8;
    let ft = t % 8;
    let rk = k / 8;
    let fk = k % 8;
    let drt = if rs >= rt {
        rs - rt
    } else {
        rt - rs
    };
    let dft = if fs >= ft {
        fs - ft
    } else {
        ft - fs
    };
    let drk = if rs >= rk {
        rs - rk
    } else {
        rk - rs
    };
    let dfk = if fs >= fk {
        fs - fk
    } else {
        fk - fs
    };
    let drkt = if rk >= rt {
        rk - rt
    } else {
        rt - rk
    };
    let dfkt = if fk >= ft {
        fk - ft
    } else {
        ft - fk
    };
    let f_between = (fs < fk && fk < ft) || (ft < fk && fk < fs);
    let r_between = (rs < rk && rk < rt) || (rt < rk && rk < rs);
    (rs == rt && rk == rs && f_between) || (fs == ft && fk == fs && r_between) || (drt == dft && drk
        == dfk && drkt == dfkt && r_between && f_between)
}

/// No square strictly between `s` and `t` is occupied.
pub open spec fn path_clear(b: InnerBoard, s: u64, t: u64) -> bool {
    forall|k: u64| k < 64 && #[trigger] between_sq(s, t, k) ==> !b.occupied(k)
}

/// Decides `path_clear` for concrete squares.
pub fn path_clear_test(b: &InnerBoard, s: u64, t: u64) -> (r: bool)
    requires
        s < 64,
        t < 64,
    ensures
        r == path_clear(*b, s, t),
{
    let mut k: u64 = 0;
    while k < 64
        invariant
            k <= 64,
            s < 64,
            t < 64,
            forall|k2: u64| k2 < k && #[trigger] between_sq(s, t, k2) ==> !b.occupied(k2),
        decreases 64 - k,
    {
        if between_test(s, t, k) && b.has(&BoardPosition::from_num(k)) {
            return false;
        }
        k = k + 1;
    }
    true
}

/// A bare move of this kind is available from `s` to `t`: the step has
/// the piece's shape, every square on the way is empty, and so is the
/// destination.
pub open spec fn cand_move(b: InnerBoard, kind: PieceType, color: Color, s: u64, t: u64) -> bool {
    &&& move_shape(kind, color, s, t)
    &&& path_clear(b, s, t)
    &&& !b.occupied(t)
}

/// A capture of this kind is available from `s` to `t`: the step has
/// the piece's capture shape, the way is clear, and an enemy piece
/// stands on the destination.
pub open spec fn cand_take(b: InnerBoard, kind: PieceType, color: Color, s: u64, t: u64) -> bool {
    &&& capture_shape(kind, color, s, t)
    &&& path_clear(b, s, t)
    &&& b.occupied_color(color.spec_flip(), t)
}

/// Some piece of `color` bears on square `t`: it could capture there
/// if an enemy stood on it.
pub open spec fn attacked(b: InnerBoard, color: Color, t: u64) -> bool {
    exists|s: u64, kind: PieceType|
        s < 64 && #[trigger] b.slot_has(kind, color, s) && capture_shape(kind, color, s, t)
            && path_clear(b, s, t)
}

/// Decides `attacked` for a concrete square: whether any piece of
/// `color` bears on `t`.
pub fn is_square_attacked(b: &InnerBoard, color: Color, t: u64) -> (r: bool)
    requires
        t < 64,
    ensures
        r == attacked(*b, color, t),
{
    let mut s: u64 = 0;
    while s < 64
        invariant
            s <= 64,
            t < 64,
            forall|s2: u64, kind: PieceType|
                s2 < s && #[trigger] b.slot_has(kind, color, s2) ==> !(capture_shape(
                    kind,
                    color,
                    s2,
                    t,
                ) && path_clear(*b, s2, t)),
        decreases 64 - s,
    {
        let pos = BoardPosition::from_num(s);
        let mut i: usize = 0;
        while i < 6
            invariant
                i <= 6,
                s < 64,
                t < 64,
                pos.idx() == s,
                forall|kind: PieceType|
                    kind.spec_index() < i && #[trigger] b.slot_has(kind, color, s) ==> !(
                    capture_shape(kind, color, s, t) && path_clear(*b, s, t)),
            decreases 6 - i,
        {
            let kind = PieceType::from_index(i).unwrap();
            let here = b.slot_test(kind, color, &pos);
            let shaped = capture_shape_test(kind, color, s, t);
            let clear = path_clear_test(b, s, t);
            if here && shaped && clear {
                proof {
                    assert(s < 64 && b.slot_has(kind, color, s) && capture_shape(kind, color, s, t)
                        && path_clear(*b, s, t));
                }
                return true;
            }
            proof {
                assert forall|kind2: PieceType|
                    kind2.spec_index() < i + 1 && #[trigger] b.slot_has(kind2, color, s) implies !(
                capture_shape(kind2, color, s, t) && path_clear(*b, s, t)) by {
                    if kind2.spec_index() == i as int {
                        PieceType::lemma_index_injective(kind2, kind);
                    }
                }
            }
            i = i + 1;
        }
        proof {
            broadcast use crate::pieces::lemma_piece_index_bounds;

        }
        s = s + 1;
    }
    false
}

/// The exact move action the generator emits for a step `s` to `t`.
pub open spec fn move_action_at(kind: PieceType, color: Color, s: u64, t: u64) -> Actions {
    Actions::Move(
        MoveAction { from: pos_at(s), to: pos_at(t), piece: kind, piece_color: color },
    )
}

/// The exact take action the generator emits for a capture `s` to `t`:
/// the victim's kind and colour are read off the board.
pub open spec fn take_action_at(
    b: InnerBoard,
    kind: PieceType,
    color: Color,
    s: u64,
    t: u64,
) -> Actions {
    Actions::Take(
        TakeAction {
            take_piece: b.spec_what_piece(t)->Some_0,
            take_piece_color: b.spec_what_color(t)->Some_0,
            pos: pos_at(t),
        },
        MoveAction { from: pos_at(s), to: pos_at(t), piece: kind, piece_color: color },
    )
}

/// One generated element is justified: a move onto an empty reachable
/// square, or a take of the piece actually standing on the target.
pub open spec fn option_elem_ok(b: InnerBoard, color: Color, a: Actions) -> bool {
    match a {
        Actions::Move(m) => m.piece_color == color && b.slot_has(m.piece, color, m.from.idx())
            && cand_move(b, m.piece, color, m.from.idx(), m.to.idx()),
        Actions::Take(ta, m) => m.piece_color == color && b.slot_has(m.piece, color, m.from.idx())
            && ta.pos == m.to && b.spec_what_piece(m.to.idx()) == Some(ta.take_piece)
            && b.spec_what_color(m.to.idx()) == Some(ta.take_piece_color) && cand_take(
            b,
            m.piece,
            color,
            m.from.idx(),
            m.to.idx(),
        ),
        _ => false,
    }
}

/// What the generator returns for one piece standing on `s`: sound
/// elements, and one element for every available move and take.
pub open spec fn moves_from_ok(
    b: InnerBoard,
    kind: PieceType,
    color: Color,
    s: u64,
    r: Seq<Actions>,
) -> bool {
    &&& forall|i: int|
        0 <= i < r.len() ==> option_elem_ok(b, color, #[trigger] r[i]) && (r[i] matches
            Actions::Move(m) ==> m.piece == kind && m.from.idx() == s) && (r[i] matches
            Actions::Take(_, m) ==> m.piece == kind && m.from.idx() == s)
    &&& forall|t: u64|
        t < 64 && b.slot_has(kind, color, s) && #[trigger] cand_move(b, kind, color, s, t)
            ==> r.contains(move_action_at(kind, color, s, t))
    &&& forall|t: u64|
        t < 64 && b.slot_has(kind, color, s) && #[trigger] cand_take(b, kind, color, s, t)
            ==> r.contains(take_action_at(b, kind, color, s, t))
}

/// Generates every move and take of the piece of `kind` and `color`
/// standing on square `s`, by walking its attack masks against the
/// board's occupancy.
#[verifier::rlimit(40)]
pub fn gen_piece_moves(
    board: &InnerBoard,
    tables: &MoveTables,
    kind: PieceType,
    color: Color,
    s: u64,
) -> (r: Vec<Actions>)
    requires
        tables.wf(),
        s < 64,
        board.slot_has(kind, color, s),
    ensures
        moves_from_ok(*board, kind, color, s, r@),
{
    broadcast use crate::position::lemma_pos_at_idx;

    let from = BoardPosition::from_num(s);
    let table = tables.table(kind, color);
    let masks = table.masks(s);
    let mut out: Vec<Actions> = Vec::new();
    let mut t: u64 = 0;
    while t < 64
        invariant
            t <= 64,
            s < 64,
            board.slot_has(kind, color, s),
            from == pos_at(s),
            forall|j: u64| j < 64 ==> #[trigger] bit_at(masks.0@, j) == move_shape(kind, color, s, j),
            forall|j: u64|
                j < 64 ==> #[trigger] bit_at(masks.1@, j) == capture_shape(kind, color, s, j),
            forall|i: int|
                0 <= i < out@.len() ==> option_elem_ok(*board, color, #[trigger] out@[i]) && (
                out@[i] matches Actions::Move(m) ==> m.piece == kind && m.from.idx() == s) && (
                out@[i] matches Actions::Take(_, m) ==> m.piece == kind && m.from.idx() == s),
            forall|t2: u64|
                t2 < t && #[trigger] cand_move(*board, kind, color, s, t2) ==> out@.contains(
                    move_action_at(kind, color, s, t2),
                ),
            forall|t2: u64|
                t2 < t && #[trigger] cand_take(*board, kind, color, s, t2) ==> out@.contains(
                    take_action_at(*board, kind, color, s, t2),
                ),
        decreases 64 - t,
    {
        let ghost out0 = out@;
        let pos_t = BoardPosition::from_num(t);
        if masks.0.get_bit(t) && path_clear_test(board, s, t) && !board.has(&pos_t) {
            let a = Actions::Move(MoveAction::new(from, pos_t, kind, color));
            proof {
                assert(a == move_action_at(kind, color, s, t));
            }
            out.push(a);
            proof {
                assert(out@[out@.len() - 1] == a);
            }
        }
        if masks.1.get_bit(t) && path_clear_test(board, s, t) {
            let opp = match color {
                Color::White => board.has_black_piece(&pos_t),
                Color::Black => board.has_white_piece(&pos_t),
            };
            if opp {
                proof {
                    crate::board::lemma_occupied_iff(*board, t);
                    crate::board::lemma_what_piece_some(*board, t);
                }
                let tk = board.what_piece_on_square(&pos_t).unwrap();
                let tc = board.what_color_is_on_square(&pos_t).unwrap();
                let a = Actions::Take(
                    TakeAction::new(tk, tc, pos_t),
                    MoveAction::new(from, pos_t, kind, color),
                );
                proof {
                    assert(a == take_action_at(*board, kind, color, s, t));
                }
                out.push(a);
                proof {
                    assert(out@[out@.len() - 1] == a);
                }
            }
        }
        proof {
            assert forall|x: Actions| out0.contains(x) implies out@.contains(x) by {
                let i = choose|i: int| 0 <= i < out0.len() && out0[i] == x;
                assert(out@[i] == x);
            }
            if cand_move(*board, kind, color, s, t) {
                assert(out@.contains(move_action_at(kind, color, s, t)));
            }
            if cand_take(*board, kind, color, s, t) {
                crate::board::lemma_occupied_iff(*board, t);
                assert(out@.contains(take_action_at(*board, kind, color, s, t)));
            }
        }
        t = t + 1;
    }
    out
}

/// A justified element of one kind's option list.
pub open spec fn kind_elem_ok(b: InnerBoard, kind: PieceType, color: Color, a: Actions) -> bool {
    &&& option_elem_ok(b, color, a)
    &&& match a {
        Actions::Move(m) => m.piece == kind,
        Actions::Take(_, m) => m.piece == kind,
        _ => false,
    }
}

/// What one layer's option list holds: sound elements of this kind,
/// and one element for every available move and take of every piece of
/// this kind and colour on the board.
pub open spec fn kind_options_ok(
    b: InnerBoard,
    kind: PieceType,
    color: Color,
    r: Seq<Actions>,
) -> bool {
    &&& forall|i: int| 0 <= i < r.len() ==> kind_elem_ok(b, kind, color, #[trigger] r[i])
    &&& forall|s: u64, t: u64|
        s < 64 && t < 64 && b.slot_has(kind, color, s) && #[trigger] cand_move(b, kind, color, s, t)
            ==> r.contains(move_action_at(kind, color, s, t))
    &&& forall|s: u64, t: u64|
        s < 64 && t < 64 && b.slot_has(kind, color, s) && #[trigger] cand_take(b, kind, color, s, t)
            ==> r.contains(take_action_at(b, kind, color, s, t))
}

/// What the whole board's option list for one colour holds.
pub open spec fn board_options_ok(b: InnerBoard, color: Color, r: Seq<Actions>) -> bool {
    &&& forall|i: int| 0 <= i < r.len() ==> option_elem_ok(b, color, #[trigger] r[i])
    &&& forall|kind: PieceType, s: u64, t: u64|
        s < 64 && t < 64 && b.slot_has(kind, color, s) && #[trigger] cand_move(b, kind, color, s, t)
            ==> r.contains(move_action_at(kind, color, s, t))
    &&& forall|kind: PieceType, s: u64, t: u64|
        s < 64 && t < 64 && b.slot_has(kind, color, s) && #[trigger] cand_take(b, kind, color, s, t)
            ==> r.contains(take_action_at(b, kind, color, s, t))
}

impl PieceBoard {
    /// Every move and take of the pieces of this layer's `color`, where
    /// this layer is the one the board keeps for `kind`.
    pub fn get_movement_options(
        &self,
        kind: PieceType,
        color: Color,
        board: &InnerBoard,
        tables: &MoveTables,
    ) -> (r: Vec<Actions>)
        requires
            tables.wf(),
            *self == board.layer(kind),
        ensures
            kind_options_ok(*board, kind, color, r@),
    {
        let mut out: Vec<Actions> = Vec::new();
        let mut s: u64 = 0;
        while s < 64
            invariant
                s <= 64,
                tables.wf(),
                *self == board.layer(kind),
                forall|i: int|
                    0 <= i < out@.len() ==> kind_elem_ok(*board, kind, color, #[trigger] out@[i]),
                forall|s2: u64, t: u64|
                    s2 < s && t < 64 && board.slot_has(kind, color, s2) && #[trigger] cand_move(
                        *board,
                        kind,
                        color,
                        s2,
                        t,
                    ) ==> out@.contains(move_action_at(kind, color, s2, t)),
                forall|s2: u64, t: u64|
                    s2 < s && t < 64 && board.slot_has(kind, color, s2) && #[trigger] cand_take(
                        *board,
                        kind,
                        color,
                        s2,
                        t,
                    ) ==> out@.contains(take_action_at(*board, kind, color, s2, t)),
            decreases 64 - s,
        {
            let pos = BoardPosition::from_num(s);
            if self.is_square_occupied_color(&pos, color) {
                let mut part = gen_piece_moves(board, tables, kind, color, s);
                let ghost out0 = out@;
                let ghost part0 = part@;
                out.append(&mut part);
                proof {
                    assert forall|x: Actions| out0.contains(x) implies out@.contains(x) by {
                        let i = choose|i: int| 0 <= i < out0.len() && out0[i] == x;
                        assert(out@[i] == x);
                    }
                    assert forall|x: Actions| part0.contains(x) implies out@.contains(x) by {
                        let i = choose|i: int| 0 <= i < part0.len() && part0[i] == x;
                        assert(out@[out0.len() + i] == x);
                    }
                }
            }
            s = s + 1;
        }
        out
    }
}

impl InnerBoard {
    /// Every move and take available to `color`, across all six layers.
    pub fn get_movement_options(&self, color: Color, tables: &MoveTables) -> (r: Vec<Actions>)
        requires
            tables.wf(),
        ensures
            board_options_ok(*self, color, r@),
    {
        let mut out: Vec<Actions> = Vec::new();
        let mut ki: usize = 0;
        while ki < 6
            invariant
                ki <= 6,
                tables.wf(),
                forall|i: int|
                    0 <= i < out@.len() ==> option_elem_ok(*self, color, #[trigger] out@[i]),
                forall|kind: PieceType, s: u64, t: u64|
                    kind.spec_index() < ki && s < 64 && t < 64 && self.slot_has(kind, color, s)
                        && #[trigger] cand_move(*self, kind, color, s, t) ==> out@.contains(
                        move_action_at(kind, color, s, t),
                    ),
                forall|kind: PieceType, s: u64, t: u64|
                    kind.spec_index() < ki && s < 64 && t < 64 && self.slot_has(kind, color, s)
                        && #[trigger] cand_take(*self, kind, color, s, t) ==> out@.contains(
                        take_action_at(*self, kind, color, s, t),
                    ),
            decreases 6 - ki,
        {
            let kind = PieceType::from_index(ki).unwrap();
            let layer = self.layer_ref(kind);
            let mut part = layer.get_movement_options(kind, color, self, tables);
            let ghost out0 = out@;
            let ghost part0 = part@;
            out.append(&mut part);
            proof {
                assert forall|x: Actions| out0.contains(x) implies out@.contains(x) by {
                    let i = choose|i: int| 0 <= i < out0.len() && out0[i] == x;
                    assert(out@[i] == x);
                }
                assert forall|x: Actions| part0.contains(x) implies out@.contains(x) by {
                    let i = choose|i: int| 0 <= i < part0.len() && part0[i] == x;
                    assert(out@[out0.len() + i] == x);
                }
                assert forall|kind2: PieceType| kind2.spec_index() == ki as int implies kind2
                    == kind by {
                    PieceType::lemma_index_injective(kind2, kind);
                }
            }
            ki = ki + 1;
        }
        proof {
            broadcast use crate::pieces::lemma_piece_index_bounds;

        }
        out
    }
}

impl crate::pieces::Pawn {
    /// The moves and takes of the pawn of `color` standing on `pos`.
    pub fn get_movement_options(
        pos: &BoardPosition,
        board: &InnerBoard,
        tables: &MoveTables,
        color: Color,
    ) -> (r: Vec<Actions>)
        requires
            tables.wf(),
            board.slot_has(PieceType::Pawn, color, pos.idx()),
        ensures
            moves_from_ok(*board, PieceType::Pawn, color, pos.idx(), r@),
    {
        gen_piece_moves(board, tables, PieceType::Pawn, color, pos.to_num())
    }
}

impl crate::pieces::Rook {
    /// The moves and takes of the rook of `color` standing on `pos`.
    pub fn get_movement_options(
        pos: &BoardPosition,
        board: &InnerBoard,
        tables: &MoveTables,
        color: Color,
    ) -> (r: Vec<Actions>)
        requires
            tables.wf(),
            board.slot_has(PieceType::Rook, color, pos.idx()),
        ensures
            moves_from_ok(*board, PieceType::Rook, color, pos.idx(), r@),
    {
        gen_piece_moves(board, tables, PieceType::Rook, color, pos.to_num())
    }
}

impl crate::pieces::Knight {
    /// The moves and takes of the knight of `color` standing on `pos`.
    pub fn get_movement_options(
        pos: &BoardPosition,
        board: &InnerBoard,
        tables: &MoveTables,
        color: Color,
    ) -> (r: Vec<Actions>)
        requires
            tables.wf(),
            board.slot_has(PieceType::Knight, color, pos.idx()),
        ensures
            moves_from_ok(*board, PieceType::Knight, color, pos.idx(), r@),
    {
        gen_piece_moves(board, tables, PieceType::Knight, color, pos.to_num())
    }
}

impl crate::pieces::Bishop {
    /// The moves and takes of the bishop of `color` standing on `pos`.
    pub fn get_movement_options(
        pos: &BoardPosition,
        board: &InnerBoard,
        tables: &MoveTables,
        color: Color,
    ) -> (r: Vec<Actions>)
        requires
            tables.wf(),
            board.slot_has(PieceType::Bishop, color, pos.idx()),
        ensures
            moves_from_ok(*board, PieceType::Bishop, color, pos.idx(), r@),
    {
        gen_piece_moves(board, tables, PieceType::Bishop, color, pos.to_num())
    }
}

impl crate::pieces::King {
    /// The moves and takes of the king of `color` standing on `pos`.
    pub fn get_movement_options(
        pos: &BoardPosition,
        board: &InnerBoard,
        tables: &MoveTables,
        color: Color,
    ) -> (r: Vec<Actions>)
        requires
            tables.wf(),
            board.slot_has(PieceType::King, color, pos.idx()),
        ensures
            moves_from_ok(*board, PieceType::King, color, pos.idx(), r@),
    {
        gen_piece_moves(board, tables, PieceType::King, color, pos.to_num())
    }
}

impl crate::pieces::Queen {
    /// The moves and takes of the queen of `color` standing on `pos`.
    pub fn get_movement_options(
        pos: &BoardPosition,
        board: &InnerBoard,
        tables: &MoveTables,
        color: Color,
    ) -> (r: Vec<Actions>)
        requires
            tables.wf(),
            board.slot_has(PieceType::Queen, color, pos.idx()),
        ensures
            moves_from_ok(*board, PieceType::Queen, color, pos.idx(), r@),
    {
        gen_piece_moves(board, tables, PieceType::Queen, color, pos.to_num())
    }
}

/// An en-passant capture `color` could play right now: its colour
/// reads off the board as `color`, the log's last entry is the
/// matching double push, and the board mutation goes through.
pub open spec fn ep_available(
    b: InnerBoard,
    h: Seq<Actions>,
    color: Color,
    from: u64,
    to: u64,
) -> bool {
    let e = EnPassant { from: pos_at(from), to: pos_at(to) };
    &&& from < 64
    &&& to < 64
    &&& crate::actions::ep_color(b, e) == Some(color)
    &&& crate::actions::ep_allowed(b, h, e)
    &&& crate::actions::ep_step_err(b, e) is None
}

/// What a game's option list holds: the whole board's moves and takes,
/// and one en-passant action for each capture the history allows.
pub open spec fn game_options_ok(
    b: InnerBoard,
    h: Seq<Actions>,
    color: Color,
    r: Seq<Actions>,
) -> bool {
    &&& forall|i: int|
        0 <= i < r.len() ==> option_elem_ok(b, color, #[trigger] r[i]) || (match r[i] {
            Actions::EnPassant(e) => ep_available(b, h, color, e.from.idx(), e.to.idx())
                && e.from == pos_at(e.from.idx()) && e.to == pos_at(e.to.idx()),
            _ => false,
        })
    &&& forall|kind: PieceType, s: u64, t: u64|
        s < 64 && t < 64 && b.slot_has(kind, color, s) && #[trigger] cand_move(b, kind, color, s, t)
            ==> r.contains(move_action_at(kind, color, s, t))
    &&& forall|kind: PieceType, s: u64, t: u64|
        s < 64 && t < 64 && b.slot_has(kind, color, s) && #[trigger] cand_take(b, kind, color, s, t)
            ==> r.contains(take_action_at(b, kind, color, s, t))
    &&& forall|from: u64, to: u64|
        #[trigger] ep_available(b, h, color, from, to) ==> r.contains(
            Actions::EnPassant(EnPassant { from: pos_at(from), to: pos_at(to) }),
        )
}

impl crate::board::Board {
    /// Every action available to `color` in this game's current
    /// position: all moves and takes, and any en-passant capture the
    /// history's most recent entry allows.
    pub fn get_movement_options(&self, color: Color, tables: &MoveTables) -> (r: Vec<Actions>)
        requires
            tables.wf(),
        ensures
            game_options_ok(self.inner_board, self.history.0@, color, r@),
    {
        broadcast use crate::position::lemma_pos_at_idx;

        let mut out = self.inner_board.get_movement_options(color, tables);
        let mut from: u64 = 0;
        while from < 64
            invariant
                from <= 64,
                forall|i: int|
                    0 <= i < out@.len() ==> option_elem_ok(self.inner_board, color, #[trigger] out@[i])
                        || (match out@[i] {
                        Actions::EnPassant(e) => ep_available(
                            self.inner_board,
                            self.history.0@,
                            color,
                            e.from.idx(),
                            e.to.idx(),
                        ) && e.from == pos_at(e.from.idx()) && e.to == pos_at(e.to.idx()),
                        _ => false,
                    }),
                forall|kind: PieceType, s: u64, t: u64|
                    s < 64 && t < 64 && self.inner_board.slot_has(kind, color, s)
                        && #[trigger] cand_move(self.inner_board, kind, color, s, t)
                        ==> out@.contains(move_action_at(kind, color, s, t)),
                forall|kind: PieceType, s: u64, t: u64|
                    s < 64 && t < 64 && self.inner_board.slot_has(kind, color, s)
                        && #[trigger] cand_take(self.inner_board, kind, color, s, t)
                        ==> out@.contains(take_action_at(self.inner_board, kind, color, s, t)),
                forall|f2: u64, to: u64|
                    f2 < from && #[trigger] ep_available(
                        self.inner_board,
                        self.history.0@,
                        color,
                        f2,
                        to,
                    ) ==> out@.contains(
                        Actions::EnPassant(EnPassant { from: pos_at(f2), to: pos_at(to) }),
                    ),
            decreases 64 - from,
        {
            let mut to: u64 = 0;
            while to < 64
                invariant
                    from < 64,
                    to <= 64,
                    forall|i: int|
                        0 <= i < out@.len() ==> option_elem_ok(
                            self.inner_board,
                            color,
                            #[trigger] out@[i],
                        ) || (match out@[i] {
                            Actions::EnPassant(e) => ep_available(
                                self.inner_board,
                                self.history.0@,
                                color,
                                e.from.idx(),
                                e.to.idx(),
                            ) && e.from == pos_at(e.from.idx()) && e.to == pos_at(e.to.idx()),
                            _ => false,
                        }),
                    forall|kind: PieceType, s: u64, t: u64|
                        s < 64 && t < 64 && self.inner_board.slot_has(kind, color, s)
                            && #[trigger] cand_move(self.inner_board, kind, color, s, t)
                            ==> out@.contains(move_action_at(kind, color, s, t)),
                    forall|kind: PieceType, s: u64, t: u64|
                        s < 64 && t < 64 && self.inner_board.slot_has(kind, color, s)
                            && #[trigger] cand_take(self.inner_board, kind, color, s, t)
                            ==> out@.contains(
                                take_action_at(self.inner_board, kind, color, s, t),
                            ),
                    forall|f2: u64, t2: u64|
                        f2 < from && #[trigger] ep_available(
                            self.inner_board,
                            self.history.0@,
                            color,
                            f2,
                            t2,
                        ) ==> out@.contains(
                            Actions::EnPassant(EnPassant { from: pos_at(f2), to: pos_at(t2) }),
                        ),
                    forall|t2: u64|
                        t2 < to && #[trigger] ep_available(
                            self.inner_board,
                            self.history.0@,
                            color,
                            from,
                            t2,
                        ) ==> out@.contains(
                            Actions::EnPassant(EnPassant { from: pos_at(from), to: pos_at(t2) }),
                        ),
                decreases 64 - to,
            {
                let e = EnPassant::new(BoardPosition::from_num(from), BoardPosition::from_num(to));
                let colour_matches = match crate::actions::ep_color_test(&self.inner_board, &e) {
                    Some(c) => c == color,
                    None => false,
                };
                if colour_matches && crate::actions::ep_allowed_check(
                    &self.inner_board,
                    &self.history,
                    &e,
                ) && crate::actions::ep_step_ok(&self.inner_board, &e) {
                    let ghost out0 = out@;
                    out.push(Actions::EnPassant(e));
                    proof {
                        assert(out@[out@.len() - 1] == Actions::EnPassant(e));
                        assert forall|x: Actions| out0.contains(x) implies out@.contains(x) by {
                            let i = choose|i: int| 0 <= i < out0.len() && out0[i] == x;
                            assert(out@[i] == x);
                        }
                    }
                }
                to = to + 1;
            }
            from = from + 1;
        }
        out
    }
}

impl InnerBoard {
    /// Whether a piece of `taker_color` and kind `taker` standing on
    /// `from` could capture on `to`; `Ok` exactly when it could.
    pub fn try_is_takeable(
        &self,
        taker_color: Color,
        taker: PieceType,
        from: BoardPosition,
        to: BoardPosition,
        tables: &MoveTables,
    ) -> (r: Result<(), Error>)
        requires
            tables.wf(),
        ensures
            match r {
                Ok(()) => cand_take(*self, taker, taker_color, from.idx(), to.idx()),
                Err(e) => !cand_take(*self, taker, taker_color, from.idx(), to.idx()) && (e matches
                    Error::Board(be) && (be == BoardError::SameColor || be
                    == BoardError::PieceMissing)) && (e == Error::Board(BoardError::SameColor)
                    <==> (capture_shape(taker, taker_color, from.idx(), to.idx()) && path_clear(
                    *self,
                    from.idx(),
                    to.idx(),
                ) && !self.occupied_color(taker_color.spec_flip(), to.idx())
                    && self.occupied_color(taker_color, to.idx()))),
            },
    {
        let s = from.to_num();
        let t = to.to_num();
        let table = tables.table(taker, taker_color);
        let masks = table.masks(s);
        if masks.1.get_bit(t) && path_clear_test(self, s, t) {
            let opp_there = match taker_color {
                Color::White => self.has_black_piece(&to),
                Color::Black => self.has_white_piece(&to),
            };
            if opp_there {
                Ok(())
            } else {
                let own_there = match taker_color {
                    Color::White => self.has_white_piece(&to),
                    Color::Black => self.has_black_piece(&to),
                };
                if own_there {
                    Err(Error::Board(BoardError::SameColor))
                } else {
                    Err(Error::Board(BoardError::PieceMissing))
                }
            }
        } else {
            Err(Error::Board(BoardError::PieceMissing))
        }
    }

    /// Whether such a capture is available at all.
    pub fn is_takeable(
        &self,
        taker_color: Color,
        taker: PieceType,
        from: BoardPosition,
        to: BoardPosition,
        tables: &MoveTables,
    ) -> (r: bool)
        requires
            tables.wf(),
        ensures
            r == cand_take(*self, taker, taker_color, from.idx(), to.idx()),
    {
        self.try_is_takeable(taker_color, taker, from, to, tables).is_ok()
    }
}

} // verus!

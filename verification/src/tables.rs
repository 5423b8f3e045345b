//! Precomputed attack tables: for every piece kind, colour and square,
//! one bitmask of the squares the piece could move to on an empty board
//! and one of the squares it could capture on.  Sliding rays are stored
//! full length; occupancy cuts them off at generation time, not here.

use vstd::prelude::*;

use crate::bitmap::BitMap64;
use crate::bitmap::bit_at;
use crate::bitmap::group_bit_lemmas;
use crate::bitmap::lemma_bit_mask_set;
use crate::pieces::Color;
use crate::pieces::PieceType;

verus! {

/// The file of square `j`: its column, 0 through 7.
pub open spec fn sq_file(j: u64) -> int {
    j as int % 8
}

/// The rank of square `j`: its row, 0 through 7.
pub open spec fn sq_rank(j: u64) -> int {
    j as int / 8
}

/// The distance between two coordinates.
pub open spec fn dist(a: int, b: int) -> int {
    if a >= b {
        a - b
    } else {
        b - a
    }
}

/// One king step: to an adjacent square.
pub open spec fn king_shape(s: u64, t: u64) -> bool {
    &&& s != t
    &&& dist(sq_rank(s), sq_rank(t)) <= 1
    &&& dist(sq_file(s), sq_file(t)) <= 1
}

/// One knight leap: two squares one way and one the other.
pub open spec fn knight_shape(s: u64, t: u64) -> bool {
    ||| dist(sq_rank(s), sq_rank(t)) == 1 && dist(sq_file(s), sq_file(t)) == 2
    ||| dist(sq_rank(s), sq_rank(t)) == 2 && dist(sq_file(s), sq_file(t)) == 1
}

/// A rook line: same rank or same file, ignoring blockers.
pub open spec fn rook_shape(s: u64, t: u64) -> bool {
    &&& s != t
    &&& (sq_rank(s) == sq_rank(t) || sq_file(s) == sq_file(t))
}

/// A bishop line: a diagonal, ignoring blockers.
pub open spec fn bishop_shape(s: u64, t: u64) -> bool {
    &&& s != t
    &&& dist(sq_rank(s), sq_rank(t)) == dist(sq_file(s), sq_file(t))
}

/// A queen line: a rook line or a bishop line.
pub open spec fn queen_shape(s: u64, t: u64) -> bool {
    rook_shape(s, t) || bishop_shape(s, t)
}

/// A pawn push: one square forward, or two from the pawn's starting
/// rank, straight along the file.
pub open spec fn pawn_push_shape(color: Color, s: u64, t: u64) -> bool {
    &&& sq_file(s) == sq_file(t)
    &&& match color {
        Color::White => sq_rank(t) == sq_rank(s) + 1 || (sq_rank(s) == 1 && sq_rank(t) == 3),
        Color::Black => sq_rank(t) == sq_rank(s) - 1 || (sq_rank(s) == 6 && sq_rank(t) == 4),
    }
}

/// A pawn capture: one square diagonally forward.
pub open spec fn pawn_capture_shape(color: Color, s: u64, t: u64) -> bool {
    &&& dist(sq_file(s), sq_file(t)) == 1
    &&& match color {
        Color::White => sq_rank(t) == sq_rank(s) + 1,
        Color::Black => sq_rank(t) == sq_rank(s) - 1,
    }
}

/// Where a piece of this kind and colour could move to from `s` on an
/// empty board.
pub open spec fn move_shape(kind: PieceType, color: Color, s: u64, t: u64) -> bool {
    match kind {
        PieceType::Pawn => pawn_push_shape(color, s, t),
        PieceType::Rook => rook_shape(s, t),
        PieceType::Knight => knight_shape(s, t),
        PieceType::Bishop => bishop_shape(s, t),
        PieceType::King => king_shape(s, t),
        PieceType::Queen => queen_shape(s, t),
    }
}

/// Where a piece of this kind and colour could capture from `s` on an
/// otherwise empty board.  Only pawns capture differently from how they
/// move.
pub open spec fn capture_shape(kind: PieceType, color: Color, s: u64, t: u64) -> bool {
    match kind {
        PieceType::Pawn => pawn_capture_shape(color, s, t),
        _ => move_shape(kind, color, s, t),
    }
}

/// Decides `move_shape` for concrete squares.
pub fn move_shape_test(kind: PieceType, color: Color, s: u64, t: u64) -> (r: bool)
    requires
        s < 64,
        t < 64,
    ensures
        r == move_shape(kind, color, s, t),
{
    let fs = s % 8;
    let rs = s / 8;
    let ft = t % 8;
    let rt = t / 8;
    let df = if fs >= ft {
        fs - ft
    } else {
        ft - fs
    };
    let dr = if rs >= rt {
        rs - rt
    } else {
        rt - rs
    };
    match kind {
        PieceType::Pawn => fs == ft && (match color {
            Color::White => rt == rs + 1 || (rs == 1 && rt == 3),
            Color::Black => rt + 1 == rs || (rs == 6 && rt == 4),
        }),
        PieceType::Rook => s != t && (rs == rt || fs == ft),
        PieceType::Knight => (dr == 1 && df == 2) || (dr == 2 && df == 1),
        PieceType::Bishop => s != t && dr == df,
        PieceType::King => s != t && dr <= 1 && df <= 1,
        PieceType::Queen => s != t && (rs == rt || fs == ft || dr == df),
    }
}

/// Decides `capture_shape` for concrete squares.
pub fn capture_shape_test(kind: PieceType, color: Color, s: u64, t: u64) -> (r: bool)
    requires
        s < 64,
        t < 64,
    ensures
        r == capture_shape(kind, color, s, t),
{
    match kind {
        PieceType::Pawn => {
            let fs = s % 8;
            let rs = s / 8;
            let ft = t % 8;
            let rt = t / 8;
            let df = if fs >= ft {
                fs - ft
            } else {
                ft - fs
            };
            df == 1 && (match color {
                Color::White => rt == rs + 1,
                Color::Black => rt + 1 == rs,
            })
        },
        _ => move_shape_test(kind, color, s, t),
    }
}

/// The per-square masks of one piece kind and colour: `.0` of each pair
/// is the move mask, `.1` the capture mask, indexed by origin square.
pub struct MoveTable(pub Vec<(BitMap64, BitMap64)>);

/// The table holds exactly the squares the shape predicates describe
/// for this kind and colour.
pub open spec fn table_ok(t: MoveTable, kind: PieceType, color: Color) -> bool {
    &&& t.0@.len() == 64
    &&& forall|s: int, j: u64|
        0 <= s < 64 && j < 64 ==> #[trigger] bit_at(t.0@[s].0@, j) == move_shape(
            kind,
            color,
            s as u64,
            j,
        )
    &&& forall|s: int, j: u64|
        0 <= s < 64 && j < 64 ==> #[trigger] bit_at(t.0@[s].1@, j) == capture_shape(
            kind,
            color,
            s as u64,
            j,
        )
}

impl MoveTable {
    /// The pair of masks anchored at square `sq`: where the piece may
    /// move, and where it may capture.
    pub fn masks(&self, sq: u64) -> (r: (BitMap64, BitMap64))
        requires
            sq < 64,
            self.0@.len() == 64,
        ensures
            r == self.0@[sq as int],
    {
        *(&self.0[sq as usize])
    }
}

/// Builds both masks anchored at square `s`.
fn build_square_masks(kind: PieceType, color: Color, s: u64) -> (r: (BitMap64, BitMap64))
    requires
        s < 64,
    ensures
        forall|j: u64| j < 64 ==> #[trigger] bit_at(r.0@, j) == move_shape(kind, color, s, j),
        forall|j: u64| j < 64 ==> #[trigger] bit_at(r.1@, j) == capture_shape(kind, color, s, j),
{
    broadcast use group_bit_lemmas;

    let mut mv = BitMap64::new(0);
    let mut cp = BitMap64::new(0);
    let mut t: u64 = 0;
    while t < 64
        invariant
            t <= 64,
            s < 64,
            forall|j: u64|
                j < 64 ==> #[trigger] bit_at(mv@, j) == (j < t && move_shape(kind, color, s, j)),
            forall|j: u64|
                j < 64 ==> #[trigger] bit_at(cp@, j) == (j < t && capture_shape(kind, color, s, j)),
        decreases 64 - t,
    {
        let ghost mv0 = mv@;
        let ghost cp0 = cp@;
        if move_shape_test(kind, color, s, t) {
            mv.set_bit(t);
        }
        if capture_shape_test(kind, color, s, t) {
            cp.set_bit(t);
        }
        proof {
            assert forall|j: u64| j < 64 implies #[trigger] bit_at(mv@, j) == (j < t + 1
                && move_shape(kind, color, s, j)) by {
                if move_shape(kind, color, s, t) {
                    lemma_bit_mask_set(mv0, t, j);
                }
            }
            assert forall|j: u64| j < 64 implies #[trigger] bit_at(cp@, j) == (j < t + 1
                && capture_shape(kind, color, s, j)) by {
                if capture_shape(kind, color, s, t) {
                    lemma_bit_mask_set(cp0, t, j);
                }
            }
        }
        t = t + 1;
    }
    (mv, cp)
}

/// Builds the full 64-square table of one piece kind and colour.
fn build_table(kind: PieceType, color: Color) -> (r: MoveTable)
    ensures
        table_ok(r, kind, color),
{
    let mut v: Vec<(BitMap64, BitMap64)> = Vec::new();
    let mut s: u64 = 0;
    while s < 64
        invariant
            s <= 64,
            v@.len() == s,
            forall|i: int, j: u64|
                0 <= i < s && j < 64 ==> #[trigger] bit_at(v@[i].0@, j) == move_shape(
                    kind,
                    color,
                    i as u64,
                    j,
                ),
            forall|i: int, j: u64|
                0 <= i < s && j < 64 ==> #[trigger] bit_at(v@[i].1@, j) == capture_shape(
                    kind,
                    color,
                    i as u64,
                    j,
                ),
        decreases 64 - s,
    {
        let masks = build_square_masks(kind, color, s);
        v.push(masks);
        s = s + 1;
    }
    MoveTable(v)
}

/// All seven attack tables, one per pawn colour and one per other kind,
/// computed once at startup and shared read-only afterwards.
pub struct MoveTables {
    pub tables: Vec<MoveTable>,
}

impl MoveTables {
    /// Every lookup the engine makes resolves to a table that matches
    /// the shape predicates of its kind and colour.
    pub open spec fn wf(self) -> bool {
        &&& self.tables@.len() == 7
    &&& table_ok(self.tables@[0], PieceType::Pawn, Color::White)
        &&& table_ok(self.tables@[1], PieceType::Pawn, Color::Black)
        &&& table_ok(self.tables@[2], PieceType::Rook, Color::White)
        &&& table_ok(self.tables@[2], PieceType::Rook, Color::Black)
        &&& table_ok(self.tables@[3], PieceType::Knight, Color::White)
        &&& table_ok(self.tables@[3], PieceType::Knight, Color::Black)
        &&& table_ok(self.tables@[4], PieceType::Bishop, Color::White)
        &&& table_ok(self.tables@[4], PieceType::Bishop, Color::Black)
        &&& table_ok(self.tables@[5], PieceType::King, Color::White)
        &&& table_ok(self.tables@[5], PieceType::King, Color::Black)
        &&& table_ok(self.tables@[6], PieceType::Queen, Color::White)
        &&& table_ok(self.tables@[6], PieceType::Queen, Color::Black)
    }

    /// Computes every table.  Deterministic, so running it at process
    /// start is as good as baking the data in at build time.
    pub fn new() -> (r: MoveTables)
        ensures
            r.wf(),
    {
        let mut tables: Vec<MoveTable> = Vec::new();
        tables.push(build_table(PieceType::Pawn, Color::White));
        tables.push(build_table(PieceType::Pawn, Color::Black));
        tables.push(build_table(PieceType::Rook, Color::White));
        tables.push(build_table(PieceType::Knight, Color::White));
        tables.push(build_table(PieceType::Bishop, Color::White));
        tables.push(build_table(PieceType::King, Color::White));
        tables.push(build_table(PieceType::Queen, Color::White));
        MoveTables { tables }
    }

    /// The table of one piece kind and colour; only pawns get separate
    /// tables per colour.
    pub fn table(&self, piece: PieceType, color: Color) -> (r: &MoveTable)
        requires
            self.wf(),
        ensures
            table_ok(*r, piece, color),
    {
        let i: usize = match (piece, color) {
            (PieceType::Pawn, Color::White) => 0,
            (PieceType::Pawn, Color::Black) => 1,
            (PieceType::Rook, _) => 2,
            (PieceType::Knight, _) => 3,
            (PieceType::Bishop, _) => 4,
            (PieceType::King, _) => 5,
            (PieceType::Queen, _) => 6,
        };
        &self.tables[i]
    }
}

} // verus!

//! The board: one occupancy layer per piece kind, each layer a pair of
//! bitboards, one per colour.  The engine-wide invariant is that no two
//! layer slots ever hold the same square.

use vstd::prelude::*;

use crate::bitmap::BitMap64;
use crate::bitmap::bit_at;
use crate::bitmap::group_bit_lemmas;
use crate::bitmap::mask_clear;
use crate::bitmap::mask_set;
use crate::bitmap::pop64;
use crate::errors::BoardError;
use crate::history::History;
use crate::pieces::Color;
use crate::pieces::PieceType;
use crate::position::BoardPosition;

verus! {

/// The occupancy of a single piece kind: one bitboard of White pieces
/// of that kind and one of Black pieces.
#[derive(Debug, Clone, Copy, PartialEq, Eq, Structural)]
pub struct PieceBoard {
    pub white_piece: BitMap64,
    pub black_piece: BitMap64,
}

impl PieceBoard {
    /// This layer with one colour's side replaced by `bits`.
    pub open spec fn with_side(self, color: Color, bits: u64) -> PieceBoard {
        match color {
            Color::White => PieceBoard { white_piece: BitMap64(bits), ..self },
            Color::Black => PieceBoard { black_piece: BitMap64(bits), ..self },
        }
    }

    /// The bits of one colour's side of the layer.
    pub open spec fn side(self, color: Color) -> u64 {
        match color {
            Color::White => self.white_piece@,
            Color::Black => self.black_piece@,
        }
    }

    /// Whether either colour of this layer holds square `j`.
    pub open spec fn spec_occupied(self, j: u64) -> bool {
        bit_at(self.white_piece@, j) || bit_at(self.black_piece@, j)
    }

    pub fn new_custom(white: u64, black: u64) -> (r: PieceBoard)
        ensures
            r.white_piece@ == white,
            r.black_piece@ == black,
    {
        PieceBoard { white_piece: BitMap64::new(white), black_piece: BitMap64::new(black) }
    }

    /// Clears the slot without checking that it was set.
    pub fn remove_piece_unchecked_with_color(&mut self, pos: &BoardPosition, color: &Color)
        ensures
            final(self).side(*color) == mask_clear(old(self).side(*color), pos.idx()),
            final(self).side(color.spec_flip()) == old(self).side(color.spec_flip()),
    {
        match color {
            Color::White => self.white_piece.clear_bit(pos.to_num()),
            Color::Black => self.black_piece.clear_bit(pos.to_num()),
        }
    }

    /// Removes the piece of `color` at `pos`; fails with `PieceMissing`
    /// when that slot is empty, leaving the layer unchanged.
    pub fn remove_piece_with_color(&mut self, pos: &BoardPosition, color: &Color) -> (r: Result<
        (),
        BoardError,
    >)
        ensures
            match r {
                Ok(()) => bit_at(old(self).side(*color), pos.idx()) && final(self).side(*color)
                    == mask_clear(old(self).side(*color), pos.idx()) && final(self).side(
                    color.spec_flip(),
                ) == old(self).side(color.spec_flip()),
                Err(e) => !bit_at(old(self).side(*color), pos.idx()) && e == BoardError::PieceMissing
                    && *final(self) == *old(self),
            },
    {
        let occupied = match color {
            Color::White => self.white_piece.get_bit(pos.to_num()),
            Color::Black => self.black_piece.get_bit(pos.to_num()),
        };
        if occupied {
            self.remove_piece_unchecked_with_color(pos, color);
            Ok(())
        } else {
            Err(BoardError::PieceMissing)
        }
    }

    /// Sets the slot without checking that it was free.
    pub fn insert_unchecked_with_color(&mut self, pos: &BoardPosition, color: &Color)
        ensures
            final(self).side(*color) == mask_set(old(self).side(*color), pos.idx()),
            final(self).side(color.spec_flip()) == old(self).side(color.spec_flip()),
    {
        match color {
            Color::White => self.white_piece.set_bit(pos.to_num()),
            Color::Black => self.black_piece.set_bit(pos.to_num()),
        }
    }

    /// Inserts a piece of `color` at `pos`; fails with `PieceMissing`
    /// when that slot is already taken, leaving the layer unchanged.
    pub fn insert_piece_with_color(&mut self, pos: &BoardPosition, color: &Color) -> (r: Result<
        (),
        BoardError,
    >)
        ensures
            match r {
                Ok(()) => !bit_at(old(self).side(*color), pos.idx()) && final(self).side(*color)
                    == mask_set(old(self).side(*color), pos.idx()) && final(self).side(
                    color.spec_flip(),
                ) == old(self).side(color.spec_flip()),
                Err(e) => bit_at(old(self).side(*color), pos.idx()) && e == BoardError::PieceMissing
                    && *final(self) == *old(self),
            },
    {
        let occupied = match color {
            Color::White => self.white_piece.get_bit(pos.to_num()),
            Color::Black => self.black_piece.get_bit(pos.to_num()),
        };
        if occupied {
            Err(BoardError::PieceMissing)
        } else {
            self.insert_unchecked_with_color(pos, color);
            Ok(())
        }
    }

    /// Moves the bit of `color` from `from` to `to` without any check.
    pub fn move_piece_unchecked(&mut self, color: &Color, from: &BoardPosition, to: &BoardPosition)
        ensures
            final(self).side(*color) == mask_set(
                mask_clear(old(self).side(*color), from.idx()),
                to.idx(),
            ),
            final(self).side(color.spec_flip()) == old(self).side(color.spec_flip()),
    {
        match color {
            Color::White => {
                self.white_piece.clear_bit(from.to_num());
                self.white_piece.set_bit(to.to_num());
            },
            Color::Black => {
                self.black_piece.clear_bit(from.to_num());
                self.black_piece.set_bit(to.to_num());
            },
        }
    }

    /// Relocates within this layer.  Fails with `PieceMissing` when
    /// `from` holds no piece of this kind, and with `PieceWhereMoving`
    /// when `to` already holds one: a capture must go through a take
    /// first, never through a bare move.
    pub fn move_piece(&mut self, color: &Color, from: &BoardPosition, to: &BoardPosition) -> (r:
        Result<(), BoardError>)
        ensures
            match r {
                Ok(()) => old(self).spec_occupied(from.idx()) && !old(self).spec_occupied(to.idx())
                    && final(self).side(*color) == mask_set(
                    mask_clear(old(self).side(*color), from.idx()),
                    to.idx(),
                ) && final(self).side(color.spec_flip()) == old(self).side(color.spec_flip()),
                Err(BoardError::PieceMissing) => !old(self).spec_occupied(from.idx()) && *final(self)
                    == *old(self),
                Err(BoardError::PieceWhereMoving) => old(self).spec_occupied(from.idx()) && old(
                    self,
                ).spec_occupied(to.idx()) && *final(self) == *old(self),
                Err(_) => false,
            },
    {
        if !self.is_square_occupied(from) {
            Err(BoardError::PieceMissing)
        } else if self.is_square_occupied(to) {
            Err(BoardError::PieceWhereMoving)
        } else {
            self.move_piece_unchecked(color, from, to);
            Ok(())
        }
    }

    pub fn get_occupied_squares(&self) -> (r: BitMap64)
        ensures
            r@ == self.white_piece@ | self.black_piece@,
    {
        self.white_piece.union(self.black_piece)
    }

    pub fn get_white_squares(&self) -> (r: BitMap64)
        ensures
            r == self.white_piece,
    {
        self.white_piece
    }

    pub fn get_black_squares(&self) -> (r: BitMap64)
        ensures
            r == self.black_piece,
    {
        self.black_piece
    }

    pub fn is_square_occupied(&self, pos: &BoardPosition) -> (r: bool)
        ensures
            r == self.spec_occupied(pos.idx()),
    {
        broadcast use group_bit_lemmas;

        self.get_occupied_squares().contains(pos.to_num())
    }

    pub fn is_square_occupied_color(&self, pos: &BoardPosition, color: Color) -> (r: bool)
        ensures
            r == bit_at(self.side(color), pos.idx()),
    {
        match color {
            Color::White => self.white_piece.contains(pos.to_num()),
            Color::Black => self.black_piece.contains(pos.to_num()),
        }
    }

    pub fn is_white_piece_on_square(&self, pos: &BoardPosition) -> (r: bool)
        ensures
            r == bit_at(self.white_piece@, pos.idx()),
    {
        self.white_piece.contains(pos.to_num())
    }

    pub fn is_black_piece_on_square(&self, pos: &BoardPosition) -> (r: bool)
        ensures
            r == bit_at(self.black_piece@, pos.idx()),
    {
        self.black_piece.contains(pos.to_num())
    }

    pub fn count_pieces(&self) -> (r: u8)
        ensures
            r as nat == pop64(self.white_piece@ | self.black_piece@),
    {
        self.get_occupied_squares().count_ones()
    }

    pub fn count_white_pieces(&self) -> (r: u8)
        ensures
            r as nat == pop64(self.white_piece@),
    {
        self.white_piece.count_ones()
    }

    pub fn count_black_pieces(&self) -> (r: u8)
        ensures
            r as nat == pop64(self.black_piece@),
    {
        self.black_piece.count_ones()
    }

    /// The pawn layer of the standard starting position.
    pub fn new_pawn() -> (r: PieceBoard)
        ensures
            r.white_piece@ == 0xFF00u64,
            r.black_piece@ == 0x00FF_0000_0000_0000u64,
    {
        PieceBoard::new_custom(0xFF00, 0x00FF_0000_0000_0000)
    }

    /// The king layer of the standard starting position.
    pub fn new_king() -> (r: PieceBoard)
        ensures
            r.white_piece@ == 0x10u64,
            r.black_piece@ == 0x1000_0000_0000_0000u64,
    {
        PieceBoard::new_custom(0x10, 0x1000_0000_0000_0000)
    }

    /// The bishop layer of the standard starting position.
    pub fn new_bishop() -> (r: PieceBoard)
        ensures
            r.white_piece@ == 0x24u64,
            r.black_piece@ == 0x2400_0000_0000_0000u64,
    {
        PieceBoard::new_custom(0x24, 0x2400_0000_0000_0000)
    }

    /// The knight layer of the standard starting position.
    pub fn new_knight() -> (r: PieceBoard)
        ensures
            r.white_piece@ == 0x42u64,
            r.black_piece@ == 0x4200_0000_0000_0000u64,
    {
        PieceBoard::new_custom(0x42, 0x4200_0000_0000_0000)
    }

    /// The rook layer of the standard starting position.
    pub fn new_rook() -> (r: PieceBoard)
        ensures
            r.white_piece@ == 0x81u64,
            r.black_piece@ == 0x8100_0000_0000_0000u64,
    {
        PieceBoard::new_custom(0x81, 0x8100_0000_0000_0000)
    }

    /// The queen layer of the standard starting position.
    pub fn new_queen() -> (r: PieceBoard)
        ensures
            r.white_piece@ == 0x08u64,
            r.black_piece@ == 0x0800_0000_0000_0000u64,
    {
        PieceBoard::new_custom(0x08, 0x0800_0000_0000_0000)
    }
}

/// The full occupancy of the board: six layers, one per piece kind.
#[derive(Debug, Clone, Copy, PartialEq, Eq, Structural)]
pub struct InnerBoard {
    pub pawns: PieceBoard,
    pub rooks: PieceBoard,
    pub knights: PieceBoard,
    pub bishops: PieceBoard,
    pub kings: PieceBoard,
    pub queens: PieceBoard,
}

impl InnerBoard {
    /// The layer of one piece kind.
    pub open spec fn layer(self, kind: PieceType) -> PieceBoard {
        match kind {
            PieceType::Pawn => self.pawns,
            PieceType::Rook => self.rooks,
            PieceType::Knight => self.knights,
            PieceType::Bishop => self.bishops,
            PieceType::King => self.kings,
            PieceType::Queen => self.queens,
        }
    }

    /// This board with the layer of `kind` replaced.
    pub open spec fn with_layer(self, kind: PieceType, pb: PieceBoard) -> InnerBoard {
        match kind {
            PieceType::Pawn => InnerBoard { pawns: pb, ..self },
            PieceType::Rook => InnerBoard { rooks: pb, ..self },
            PieceType::Knight => InnerBoard { knights: pb, ..self },
            PieceType::Bishop => InnerBoard { bishops: pb, ..self },
            PieceType::King => InnerBoard { kings: pb, ..self },
            PieceType::Queen => InnerBoard { queens: pb, ..self },
        }
    }

    /// This board with the bits of one slot replaced.
    pub open spec fn with_slot(self, kind: PieceType, color: Color, bits: u64) -> InnerBoard {
        self.with_layer(kind, self.layer(kind).with_side(color, bits))
    }

    /// The bits of one slot: one piece kind of one colour.
    pub open spec fn side_bits(self, kind: PieceType, color: Color) -> u64 {
        self.layer(kind).side(color)
    }

    /// Whether the slot of `kind` and `color` holds square `j`.
    pub open spec fn slot_has(self, kind: PieceType, color: Color, j: u64) -> bool {
        bit_at(self.side_bits(kind, color), j)
    }

    /// All squares White occupies, as one word.
    pub open spec fn all_white(self) -> u64 {
        self.pawns.white_piece@ | self.rooks.white_piece@ | self.knights.white_piece@
            | self.bishops.white_piece@ | self.kings.white_piece@ | self.queens.white_piece@
    }

    /// All squares Black occupies, as one word.
    pub open spec fn all_black(self) -> u64 {
        self.pawns.black_piece@ | self.rooks.black_piece@ | self.knights.black_piece@
            | self.bishops.black_piece@ | self.kings.black_piece@ | self.queens.black_piece@
    }

    /// All occupied squares, as one word.
    pub open spec fn all_occ(self) -> u64 {
        self.all_white() | self.all_black()
    }

    /// The bits of all squares one colour occupies.
    pub open spec fn color_bits(self, color: Color) -> u64 {
        match color {
            Color::White => self.all_white(),
            Color::Black => self.all_black(),
        }
    }

    /// Whether any piece occupies square `j`.
    pub open spec fn occupied(self, j: u64) -> bool {
        bit_at(self.all_occ(), j)
    }

    /// Whether a piece of `color` occupies square `j`.
    pub open spec fn occupied_color(self, color: Color, j: u64) -> bool {
        bit_at(self.color_bits(color), j)
    }

    /// The kind of the piece on square `j`, scanning the layers in their
    /// fixed order.
    pub open spec fn spec_what_piece(self, j: u64) -> Option<PieceType> {
        if self.pawns.spec_occupied(j) {
            Some(PieceType::Pawn)
        } else if self.rooks.spec_occupied(j) {
            Some(PieceType::Rook)
        } else if self.knights.spec_occupied(j) {
            Some(PieceType::Knight)
        } else if self.bishops.spec_occupied(j) {
            Some(PieceType::Bishop)
        } else if self.kings.spec_occupied(j) {
            Some(PieceType::King)
        } else if self.queens.spec_occupied(j) {
            Some(PieceType::Queen)
        } else {
            None
        }
    }

    /// The colour of the piece on square `j`, scanning each layer's
    /// White side before its Black side, in layer order.
    pub open spec fn spec_what_color(self, j: u64) -> Option<Color> {
        if bit_at(self.pawns.white_piece@, j) {
            Some(Color::White)
        } else if bit_at(self.pawns.black_piece@, j) {
            Some(Color::Black)
        } else if bit_at(self.rooks.white_piece@, j) {
            Some(Color::White)
        } else if bit_at(self.rooks.black_piece@, j) {
            Some(Color::Black)
        } else if bit_at(self.knights.white_piece@, j) {
            Some(Color::White)
        } else if bit_at(self.knights.black_piece@, j) {
            Some(Color::Black)
        } else if bit_at(self.bishops.white_piece@, j) {
            Some(Color::White)
        } else if bit_at(self.bishops.black_piece@, j) {
            Some(Color::Black)
        } else if bit_at(self.kings.white_piece@, j) {
            Some(Color::White)
        } else if bit_at(self.kings.black_piece@, j) {
            Some(Color::Black)
        } else if bit_at(self.queens.white_piece@, j) {
            Some(Color::White)
        } else if bit_at(self.queens.black_piece@, j) {
            Some(Color::Black)
        } else {
            None
        }
    }

    /// No two layers hold the same square: what `validate` recomputes.
    pub open spec fn spec_validate(self) -> bool {
        forall|j: u64, k1: PieceType, k2: PieceType|
            j < 64 && #[trigger] self.layer(k1).spec_occupied(j) && #[trigger] self.layer(
                k2,
            ).spec_occupied(j) ==> k1 == k2
    }

    /// The full board invariant: every occupied square belongs to
    /// exactly one kind of exactly one colour.
    pub open spec fn wf(self) -> bool {
        forall|j: u64, k1: PieceType, c1: Color, k2: PieceType, c2: Color|
            j < 64 && #[trigger] self.slot_has(k1, c1, j) && #[trigger] self.slot_has(k2, c2, j)
                ==> k1 == k2 && c1 == c2
    }

    pub fn new_inner_board(pieces: [PieceBoard; 6]) -> (r: Self)
        ensures
            r.pawns == pieces[0],
            r.rooks == pieces[1],
            r.knights == pieces[2],
            r.bishops == pieces[3],
            r.kings == pieces[4],
            r.queens == pieces[5],
    {
        InnerBoard {
            pawns: pieces[0],
            rooks: pieces[1],
            knights: pieces[2],
            bishops: pieces[3],
            kings: pieces[4],
            queens: pieces[5],
        }
    }

    /// The layer of one piece kind.
    pub fn layer_ref(&self, kind: PieceType) -> (r: &PieceBoard)
        ensures
            *r == self.layer(kind),
    {
        match kind {
            PieceType::Pawn => &self.pawns,
            PieceType::Rook => &self.rooks,
            PieceType::Knight => &self.knights,
            PieceType::Bishop => &self.bishops,
            PieceType::King => &self.kings,
            PieceType::Queen => &self.queens,
        }
    }

    /// Whether the slot of `kind` and `color` holds `pos`.
    pub fn slot_test(&self, kind: PieceType, color: Color, pos: &BoardPosition) -> (r: bool)
        ensures
            r == self.slot_has(kind, color, pos.idx()),
    {
        self.layer_ref(kind).is_square_occupied_color(pos, color)
    }

    /// Clears one slot bit without any check.
    pub fn slot_clear_unchecked(&mut self, kind: PieceType, color: Color, pos: &BoardPosition)
        ensures
            *final(self) == old(self).with_slot(
                kind,
                color,
                mask_clear(old(self).side_bits(kind, color), pos.idx()),
            ),
    {
        match kind {
            PieceType::Pawn => self.pawns.remove_piece_unchecked_with_color(pos, &color),
            PieceType::Rook => self.rooks.remove_piece_unchecked_with_color(pos, &color),
            PieceType::Knight => self.knights.remove_piece_unchecked_with_color(pos, &color),
            PieceType::Bishop => self.bishops.remove_piece_unchecked_with_color(pos, &color),
            PieceType::King => self.kings.remove_piece_unchecked_with_color(pos, &color),
            PieceType::Queen => self.queens.remove_piece_unchecked_with_color(pos, &color),
        }
    }

    /// Sets one slot bit without any check.
    pub fn slot_set_unchecked(&mut self, kind: PieceType, color: Color, pos: &BoardPosition)
        ensures
            *final(self) == old(self).with_slot(
                kind,
                color,
                mask_set(old(self).side_bits(kind, color), pos.idx()),
            ),
    {
        match kind {
            PieceType::Pawn => self.pawns.insert_unchecked_with_color(pos, &color),
            PieceType::Rook => self.rooks.insert_unchecked_with_color(pos, &color),
            PieceType::Knight => self.knights.insert_unchecked_with_color(pos, &color),
            PieceType::Bishop => self.bishops.insert_unchecked_with_color(pos, &color),
            PieceType::King => self.kings.insert_unchecked_with_color(pos, &color),
            PieceType::Queen => self.queens.insert_unchecked_with_color(pos, &color),
        }
    }

    /// Moves one slot bit from `from` to `to` without any check.
    pub fn slot_move_unchecked(
        &mut self,
        kind: PieceType,
        color: Color,
        from: &BoardPosition,
        to: &BoardPosition,
    )
        ensures
            *final(self) == old(self).with_slot(
                kind,
                color,
                mask_set(mask_clear(old(self).side_bits(kind, color), from.idx()), to.idx()),
            ),
    {
        match kind {
            PieceType::Pawn => self.pawns.move_piece_unchecked(&color, from, to),
            PieceType::Rook => self.rooks.move_piece_unchecked(&color, from, to),
            PieceType::Knight => self.knights.move_piece_unchecked(&color, from, to),
            PieceType::Bishop => self.bishops.move_piece_unchecked(&color, from, to),
            PieceType::King => self.kings.move_piece_unchecked(&color, from, to),
            PieceType::Queen => self.queens.move_piece_unchecked(&color, from, to),
        }
    }

    pub fn what_piece_on_square(&self, pos: &BoardPosition) -> (r: Option<PieceType>)
        ensures
            r == self.spec_what_piece(pos.idx()),
    {
        if self.pawns.is_square_occupied(pos) {
            Some(PieceType::Pawn)
        } else if self.rooks.is_square_occupied(pos) {
            Some(PieceType::Rook)
        } else if self.knights.is_square_occupied(pos) {
            Some(PieceType::Knight)
        } else if self.bishops.is_square_occupied(pos) {
            Some(PieceType::Bishop)
        } else if self.kings.is_square_occupied(pos) {
            Some(PieceType::King)
        } else if self.queens.is_square_occupied(pos) {
            Some(PieceType::Queen)
        } else {
            None
        }
    }

    pub fn what_color_is_on_square(&self, pos: &BoardPosition) -> (r: Option<Color>)
        ensures
            r == self.spec_what_color(pos.idx()),
    {
        if self.pawns.is_white_piece_on_square(pos) {
            Some(Color::White)
        } else if self.pawns.is_black_piece_on_square(pos) {
            Some(Color::Black)
        } else if self.rooks.is_white_piece_on_square(pos) {
            Some(Color::White)
        } else if self.rooks.is_black_piece_on_square(pos) {
            Some(Color::Black)
        } else if self.knights.is_white_piece_on_square(pos) {
            Some(Color::White)
        } else if self.knights.is_black_piece_on_square(pos) {
            Some(Color::Black)
        } else if self.bishops.is_white_piece_on_square(pos) {
            Some(Color::White)
        } else if self.bishops.is_black_piece_on_square(pos) {
            Some(Color::Black)
        } else if self.kings.is_white_piece_on_square(pos) {
            Some(Color::White)
        } else if self.kings.is_black_piece_on_square(pos) {
            Some(Color::Black)
        } else if self.queens.is_white_piece_on_square(pos) {
            Some(Color::White)
        } else if self.queens.is_black_piece_on_square(pos) {
            Some(Color::Black)
        } else {
            None
        }
    }

    pub fn get_all_occupied_squares(&self) -> (r: BitMap64)
        ensures
            r@ == self.all_occ(),
    {
        self.get_all_white_squares().union(self.get_all_black_squares())
    }

    pub fn get_all_white_squares(&self) -> (r: BitMap64)
        ensures
            r@ == self.all_white(),
    {
        self.pawns.white_piece.union(self.rooks.white_piece).union(self.knights.white_piece).union(
            self.bishops.white_piece,
        ).union(self.kings.white_piece).union(self.queens.white_piece)
    }

    pub fn get_all_black_squares(&self) -> (r: BitMap64)
        ensures
            r@ == self.all_black(),
    {
        self.pawns.black_piece.union(self.rooks.black_piece).union(self.knights.black_piece).union(
            self.bishops.black_piece,
        ).union(self.kings.black_piece).union(self.queens.black_piece)
    }

    pub fn has(&self, square: &BoardPosition) -> (r: bool)
        ensures
            r == self.occupied(square.idx()),
    {
        self.get_all_occupied_squares().contains(square.to_num())
    }

    pub fn has_white_piece(&self, square: &BoardPosition) -> (r: bool)
        ensures
            r == self.occupied_color(Color::White, square.idx()),
    {
        self.get_all_white_squares().contains(square.to_num())
    }

    pub fn has_black_piece(&self, square: &BoardPosition) -> (r: bool)
        ensures
            r == self.occupied_color(Color::Black, square.idx()),
    {
        self.get_all_black_squares().contains(square.to_num())
    }

    pub fn count_all_pieces(&self) -> (r: u8)
        ensures
            r as nat == pop64(self.all_occ()),
    {
        self.get_all_occupied_squares().count_ones()
    }

    pub fn count_all_white_pieces(&self) -> (r: u8)
        ensures
            r as nat == pop64(self.all_white()),
    {
        self.get_all_white_squares().count_ones()
    }

    pub fn count_all_black_pieces(&self) -> (r: u8)
        ensures
            r as nat == pop64(self.all_black()),
    {
        self.get_all_black_squares().count_ones()
    }

    /// Recomputes whether any two layers hold the same square; `true`
    /// when they never do.  A consistency check, not a hot-path guard.
    pub fn validate(&self) -> (r: bool)
        ensures
            r == self.spec_validate(),
    {
        let mut j: u64 = 0;
        while j < 64
            invariant
                j <= 64,
                forall|j2: u64, k1: PieceType, k2: PieceType|
                    j2 < j && #[trigger] self.layer(k1).spec_occupied(j2) && #[trigger] self.layer(
                        k2,
                    ).spec_occupied(j2) ==> k1 == k2,
            decreases 64 - j,
        {
            let mut found: Option<PieceType> = None;
            let mut i: usize = 0;
            while i < 6
                invariant
                    i <= 6,
                    j < 64,
                    match found {
                        Some(k0) => k0.spec_index() < i && self.layer(k0).spec_occupied(j)
                            && forall|k: PieceType|
                            k.spec_index() < i && k != k0 ==> !(#[trigger] self.layer(
                                k,
                            ).spec_occupied(j)),
                        None => forall|k: PieceType|
                            k.spec_index() < i ==> !(#[trigger] self.layer(k).spec_occupied(j)),
                    },
                decreases 6 - i,
            {
                let kind = PieceType::from_index(i).unwrap();
                let pb = self.layer_ref(kind);
                let here = pb.white_piece.get_bit(j) || pb.black_piece.get_bit(j);
                if here {
                    match found {
                        None => {
                            found = Some(kind);
                        },
                        Some(k0) => {
                            proof {
                                assert(self.layer(k0).spec_occupied(j));
                                assert(self.layer(kind).spec_occupied(j));
                                assert(k0 != kind);
                            }
                            return false;
                        },
                    }
                }
                i = i + 1;
            }
            j = j + 1;
        }
        true
    }
}

/// The standard starting layout, as a value.
pub open spec fn start_layout() -> InnerBoard {
    InnerBoard {
        pawns: PieceBoard {
            white_piece: BitMap64(0xFF00),
            black_piece: BitMap64(0x00FF_0000_0000_0000),
        },
        rooks: PieceBoard {
            white_piece: BitMap64(0x81),
            black_piece: BitMap64(0x8100_0000_0000_0000),
        },
        knights: PieceBoard {
            white_piece: BitMap64(0x42),
            black_piece: BitMap64(0x4200_0000_0000_0000),
        },
        bishops: PieceBoard {
            white_piece: BitMap64(0x24),
            black_piece: BitMap64(0x2400_0000_0000_0000),
        },
        kings: PieceBoard {
            white_piece: BitMap64(0x10),
            black_piece: BitMap64(0x1000_0000_0000_0000),
        },
        queens: PieceBoard {
            white_piece: BitMap64(0x08),
            black_piece: BitMap64(0x0800_0000_0000_0000),
        },
    }
}

/// Whether `b` is the standard starting layout, slot by slot.
pub open spec fn is_start_layout(b: InnerBoard) -> bool {
    &&& b.pawns.white_piece@ == 0xFF00u64
    &&& b.pawns.black_piece@ == 0x00FF_0000_0000_0000u64
    &&& b.rooks.white_piece@ == 0x81u64
    &&& b.rooks.black_piece@ == 0x8100_0000_0000_0000u64
    &&& b.knights.white_piece@ == 0x42u64
    &&& b.knights.black_piece@ == 0x4200_0000_0000_0000u64
    &&& b.bishops.white_piece@ == 0x24u64
    &&& b.bishops.black_piece@ == 0x2400_0000_0000_0000u64
    &&& b.kings.white_piece@ == 0x10u64
    &&& b.kings.black_piece@ == 0x1000_0000_0000_0000u64
    &&& b.queens.white_piece@ == 0x08u64
    &&& b.queens.black_piece@ == 0x0800_0000_0000_0000u64
}

/// The standard starting layout.
impl Default for InnerBoard {
    fn default() -> (r: Self)
        ensures
            is_start_layout(r),
            r == start_layout(),
    {
        let kings = PieceBoard::new_king();
        let queens = PieceBoard::new_queen();
        let bishops = PieceBoard::new_bishop();
        let rooks = PieceBoard::new_rook();
        let knights = PieceBoard::new_knight();
        let pawns = PieceBoard::new_pawn();
        InnerBoard { pawns, rooks, knights, bishops, kings, queens }
    }
}

/// Occupancy of a square is exactly the disjunction of its twelve
/// slots, and per colour the disjunction of that colour's six.
pub proof fn lemma_occupied_iff(b: InnerBoard, j: u64)
    requires
        j < 64,
    ensures
        b.occupied(j) == (b.occupied_color(Color::White, j) || b.occupied_color(Color::Black, j)),
        b.occupied_color(Color::White, j) == (b.slot_has(PieceType::Pawn, Color::White, j)
            || b.slot_has(PieceType::Rook, Color::White, j) || b.slot_has(
            PieceType::Knight,
            Color::White,
            j,
        ) || b.slot_has(PieceType::Bishop, Color::White, j) || b.slot_has(
            PieceType::King,
            Color::White,
            j,
        ) || b.slot_has(PieceType::Queen, Color::White, j)),
        b.occupied_color(Color::Black, j) == (b.slot_has(PieceType::Pawn, Color::Black, j)
            || b.slot_has(PieceType::Rook, Color::Black, j) || b.slot_has(
            PieceType::Knight,
            Color::Black,
            j,
        ) || b.slot_has(PieceType::Bishop, Color::Black, j) || b.slot_has(
            PieceType::King,
            Color::Black,
            j,
        ) || b.slot_has(PieceType::Queen, Color::Black, j)),
{
    broadcast use group_bit_lemmas;

}

/// A square answers the kind and colour scans exactly when something
/// occupies it.
pub proof fn lemma_what_piece_some(b: InnerBoard, j: u64)
    requires
        j < 64,
    ensures
        b.spec_what_piece(j) is Some <==> b.occupied(j),
        b.spec_what_color(j) is Some <==> b.occupied(j),
{
    lemma_occupied_iff(b, j);
}

/// A board whose slots never share a square also never has two layers
/// sharing one: the invariant implies what `validate` recomputes.
pub proof fn lemma_wf_implies_validate(b: InnerBoard)
    requires
        b.wf(),
    ensures
        b.spec_validate(),
{
    assert forall|j: u64, k1: PieceType, k2: PieceType|
        j < 64 && #[trigger] b.layer(k1).spec_occupied(j) && #[trigger] b.layer(k2).spec_occupied(
            j,
        ) implies k1 == k2 by {
        assert(b.slot_has(k1, Color::White, j) || b.slot_has(k1, Color::Black, j));
        assert(b.slot_has(k2, Color::White, j) || b.slot_has(k2, Color::Black, j));
    }
}

/// Which squares each slot of the starting layout holds.
proof fn lemma_start_bits(j: u64)
    requires
        j < 64,
    ensures
        bit_at(0xFF00u64, j) == (8 <= j < 16),
        bit_at(0x00FF_0000_0000_0000u64, j) == (48 <= j < 56),
        bit_at(0x81u64, j) == (j == 0 || j == 7),
        bit_at(0x8100_0000_0000_0000u64, j) == (j == 56 || j == 63),
        bit_at(0x42u64, j) == (j == 1 || j == 6),
        bit_at(0x4200_0000_0000_0000u64, j) == (j == 57 || j == 62),
        bit_at(0x24u64, j) == (j == 2 || j == 5),
        bit_at(0x2400_0000_0000_0000u64, j) == (j == 58 || j == 61),
        bit_at(0x10u64, j) == (j == 4),
        bit_at(0x1000_0000_0000_0000u64, j) == (j == 60),
        bit_at(0x08u64, j) == (j == 3),
        bit_at(0x0800_0000_0000_0000u64, j) == (j == 59),
{
    assert(((0xFF00u64 >> j) & 1 == 1) == (8 <= j && j < 16)) by (bit_vector);
    assert(((0x00FF_0000_0000_0000u64 >> j) & 1 == 1) == (48 <= j && j < 56)) by (bit_vector);
    assert(((0x81u64 >> j) & 1 == 1) == (j == 0 || j == 7)) by (bit_vector);
    assert(((0x8100_0000_0000_0000u64 >> j) & 1 == 1) == (j == 56 || j == 63)) by (bit_vector);
    assert(((0x42u64 >> j) & 1 == 1) == (j == 1 || j == 6)) by (bit_vector);
    assert(((0x4200_0000_0000_0000u64 >> j) & 1 == 1) == (j == 57 || j == 62)) by (bit_vector);
    assert(((0x24u64 >> j) & 1 == 1) == (j == 2 || j == 5)) by (bit_vector);
    assert(((0x2400_0000_0000_0000u64 >> j) & 1 == 1) == (j == 58 || j == 61)) by (bit_vector);
    assert(((0x10u64 >> j) & 1 == 1) == (j == 4)) by (bit_vector);
    assert(((0x1000_0000_0000_0000u64 >> j) & 1 == 1) == (j == 60)) by (bit_vector);
    assert(((0x08u64 >> j) & 1 == 1) == (j == 3)) by (bit_vector);
    assert(((0x0800_0000_0000_0000u64 >> j) & 1 == 1) == (j == 59)) by (bit_vector);
}

/// The standard starting layout satisfies the board invariant: every
/// occupied square belongs to exactly one slot.
pub proof fn lemma_start_layout_wf(b: InnerBoard)
    requires
        is_start_layout(b),
    ensures
        b.wf(),
{
    assert forall|j: u64, k1: PieceType, c1: Color, k2: PieceType, c2: Color|
        j < 64 && #[trigger] b.slot_has(k1, c1, j) && #[trigger] b.slot_has(k2, c2, j) implies k1
        == k2 && c1 == c2 by {
        lemma_start_bits(j);
    }
}

/// A game: the occupancy layers, the side to move, and the log of every
/// executed action.
#[derive(Debug)]
pub struct Board {
    pub inner_board: InnerBoard,
    pub turn: Color,
    pub history: History,
}

impl Board {
    pub fn has_piece(&self, pos: &BoardPosition) -> (r: bool)
        ensures
            r == self.inner_board.occupied(pos.idx()),
    {
        self.inner_board.get_all_occupied_squares().contains(pos.to_num())
    }

    pub fn is_piece_color(&self, pos: &BoardPosition, color: Color) -> (r: bool)
        ensures
            r == self.inner_board.occupied_color(color, pos.idx()),
    {
        match color {
            Color::White => self.inner_board.get_all_white_squares().contains(pos.to_num()),
            Color::Black => self.inner_board.get_all_black_squares().contains(pos.to_num()),
        }
    }

    /// A fresh game: standard starting layout, White to move, empty
    /// history.
    pub fn new() -> (r: Board)
        ensures
            is_start_layout(r.inner_board),
            r.inner_board == start_layout(),
            r.turn == Color::White,
            r.history.0@.len() == 0,
    {
        Board { inner_board: InnerBoard::default(), turn: Color::White, history: History(Vec::new()) }
    }

    pub fn validate_current_board(&self) -> (r: bool)
        ensures
            r == self.inner_board.spec_validate(),
    {
        self.inner_board.validate()
    }
}

} // verus!

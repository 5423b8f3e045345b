//! Colours and piece kinds.  The piece set is closed, so each kind is an
//! enum value used as an index into the per-kind board layers.

use vstd::prelude::*;

verus! {

/// The two sides of a game.
#[derive(Debug, Clone, Copy, PartialEq, Eq, Structural)]
pub enum Color {
    Black,
    White,
}

impl Color {
    /// The opposing colour.
    pub open spec fn spec_flip(self) -> Color {
        match self {
            Color::White => Color::Black,
            Color::Black => Color::White,
        }
    }

    /// The opposing colour.
    pub fn flip(self) -> (r: Color)
        ensures
            r == self.spec_flip(),
    {
        match self {
            Color::White => Color::Black,
            Color::Black => Color::White,
        }
    }
}

/// Flipping a colour twice gives the colour back.
pub proof fn lemma_flip_involutive(c: Color)
    ensures
        c.spec_flip().spec_flip() == c,
{
}

/// Every piece kind's layer number lies below six.
pub broadcast proof fn lemma_piece_index_bounds(k: PieceType)
    ensures
        0 <= #[trigger] k.spec_index() < 6,
{
}

/// The six piece kinds, ordered as the board stores their layers.
#[derive(Debug, Clone, Copy, PartialEq, Eq, Structural)]
pub enum PieceType {
    Pawn,
    Rook,
    Knight,
    Bishop,
    King,
    Queen,
}

impl PieceType {
    /// The layer number of the kind, 0 for `Pawn` through 5 for `Queen`.
    pub open spec fn spec_index(self) -> int {
        match self {
            PieceType::Pawn => 0,
            PieceType::Rook => 1,
            PieceType::Knight => 2,
            PieceType::Bishop => 3,
            PieceType::King => 4,
            PieceType::Queen => 5,
        }
    }

    /// The layer number of the kind, 0 for `Pawn` through 5 for `Queen`.
    pub fn index(self) -> (r: usize)
        ensures
            r == self.spec_index(),
    {
        match self {
            PieceType::Pawn => 0,
            PieceType::Rook => 1,
            PieceType::Knight => 2,
            PieceType::Bishop => 3,
            PieceType::King => 4,
            PieceType::Queen => 5,
        }
    }

    /// The kind whose layer number is `i`, if any.
    pub fn from_index(i: usize) -> (r: Option<PieceType>)
        ensures
            match r {
                Some(k) => k.spec_index() == i,
                None => i > 5,
            },
    {
        match i {
            0 => Some(PieceType::Pawn),
            1 => Some(PieceType::Rook),
            2 => Some(PieceType::Knight),
            3 => Some(PieceType::Bishop),
            4 => Some(PieceType::King),
            5 => Some(PieceType::Queen),
            _ => None,
        }
    }

    /// Distinct kinds have distinct layer numbers.
    pub proof fn lemma_index_injective(a: PieceType, b: PieceType)
        ensures
            a.spec_index() == b.spec_index() ==> a == b,
    {
    }

    /// Whether the kind slides along rays, stopped by the first blocker,
    /// rather than leaping to a fixed offset.
    pub open spec fn spec_is_sliding(self) -> bool {
        match self {
            PieceType::Rook => true,
            PieceType::Bishop => true,
            PieceType::Queen => true,
            _ => false,
        }
    }

    pub fn is_sliding(self) -> (r: bool)
        ensures
            r == self.spec_is_sliding(),
    {
        match self {
            PieceType::Rook => true,
            PieceType::Bishop => true,
            PieceType::Queen => true,
            _ => false,
        }
    }
}

/// The pawn, as a named piece; its movement queries live with the
/// generator.
#[derive(Debug, Clone, Copy)]
pub struct Pawn;

/// The rook.
#[derive(Debug, Clone, Copy)]
pub struct Rook;

/// The knight.
#[derive(Debug, Clone, Copy)]
pub struct Knight;

/// The bishop.
#[derive(Debug, Clone, Copy)]
pub struct Bishop;

/// The king.
#[derive(Debug, Clone, Copy)]
pub struct King;

/// The queen.
#[derive(Debug, Clone, Copy)]
pub struct Queen;

} // verus!

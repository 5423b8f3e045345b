//! A square of the board, addressed by file and rank, and the offsets
//! that move between squares.  Squares are numbered `rank * 8 + file`,
//! 0 at a1 through 63 at h8.

use vstd::prelude::*;
use vstd::string::StrSliceExecFns;

use crate::errors::Error;
use crate::errors::ParsingError;
use crate::file::File;
use crate::rank::Rank;

verus! {

/// A displacement in ranks (`.0`) and files (`.1`), both towards the
/// upper right corner of the board.
#[derive(Debug, Clone, Copy, PartialEq, Eq, Structural)]
pub struct MoveOffset(pub u8, pub u8);

/// One square of the board.
#[derive(Debug, Clone, Copy, PartialEq, Eq, Structural)]
pub struct BoardPosition {
    pub file: File,
    pub rank: Rank,
}

/// The file at zero-based position `i`.
pub open spec fn file_at(i: int) -> File {
    if i == 0 {
        File::A
    } else if i == 1 {
        File::B
    } else if i == 2 {
        File::C
    } else if i == 3 {
        File::D
    } else if i == 4 {
        File::E
    } else if i == 5 {
        File::F
    } else if i == 6 {
        File::G
    } else {
        File::H
    }
}

/// The rank at zero-based position `i`.
pub open spec fn rank_at(i: int) -> Rank {
    if i == 0 {
        Rank::One
    } else if i == 1 {
        Rank::Two
    } else if i == 2 {
        Rank::Three
    } else if i == 3 {
        Rank::Four
    } else if i == 4 {
        Rank::Five
    } else if i == 5 {
        Rank::Six
    } else if i == 6 {
        Rank::Seven
    } else {
        Rank::Eight
    }
}

/// The square with number `j`, inverse of `BoardPosition::idx`.
pub open spec fn pos_at(j: u64) -> BoardPosition {
    BoardPosition { file: file_at(j as int % 8), rank: rank_at(j as int / 8) }
}

/// Below 64, numbering squares and naming them are inverse to each
/// other.
pub broadcast proof fn lemma_pos_at_idx(j: u64)
    ensures
        j < 64 ==> (#[trigger] pos_at(j)).idx() == j,
{
}

impl BoardPosition {
    /// The square's number: `rank * 8 + file`, always below 64.
    pub open spec fn idx(self) -> u64 {
        (self.rank.index() * 8 + self.file.index()) as u64
    }

    pub fn new(file: File, rank: Rank) -> (r: Self)
        ensures
            r.file == file,
            r.rank == rank,
    {
        BoardPosition { file, rank }
    }

    /// The square's number, bit position in every bitmap of the engine.
    pub fn to_num(&self) -> (r: u64)
        ensures
            r == self.idx(),
            r < 64,
    {
        let f = self.file.as_u8();
        let k = self.rank.as_u8();
        (((k - 1) * 8 + (f - 1)) as u64)
    }

    /// The square with number `num`, inverse of `to_num`.
    pub fn from_num(num: u64) -> (r: BoardPosition)
        requires
            num < 64,
        ensures
            r.file.index() == num as int % 8,
            r.rank.index() == num as int / 8,
            r.idx() == num,
            r == pos_at(num),
    {
        let file = match num % 8 {
            0 => File::A,
            1 => File::B,
            2 => File::C,
            3 => File::D,
            4 => File::E,
            5 => File::F,
            6 => File::G,
            _ => File::H,
        };
        let rank = match num / 8 {
            0 => Rank::One,
            1 => Rank::Two,
            2 => Rank::Three,
            3 => Rank::Four,
            4 => Rank::Five,
            5 => Rank::Six,
            6 => Rank::Seven,
            _ => Rank::Eight,
        };
        BoardPosition { file, rank }
    }

    /// Reads a two-character square name such as `e4`.
    pub fn parse_str(s: &str) -> (r: Result<BoardPosition, Error>)
        ensures
            match r {
                Ok(p) => s@.len() == 2 && File::spec_from_char(s@[0]) == Some(p.file)
                    && Rank::spec_from_char(s@[1]) == Some(p.rank),
                Err(e) => (s@.len() > 2 && e == Error::Parsning(ParsingError::CharOverflow)) || (
                s@.len() < 2 && e == Error::Parsning(ParsingError::CharUnderflow)) || (s@.len() == 2
                    && File::spec_from_char(s@[0]) is None && e matches Error::Parsning(
                    ParsingError::NotAFile(_),
                )) || (s@.len() == 2 && File::spec_from_char(s@[0]) is Some
                    && Rank::spec_from_char(s@[1]) is None && (e matches Error::Parsning(
                    ParsingError::NotARank(_),
                ) || e matches Error::Parsning(ParsingError::NotAFile(_)))),
            },
    {
        let n = s.unicode_len();
        if n > 2 {
            return Err(Error::Parsning(ParsingError::CharOverflow));
        }
        if n < 2 {
            return Err(Error::Parsning(ParsingError::CharUnderflow));
        }
        let file = match File::from_char(s.get_char(0)) {
            Ok(f) => f,
            Err(e) => {
                return Err(Error::Parsning(e));
            },
        };
        let rank = match Rank::from_char(s.get_char(1)) {
            Ok(k) => k,
            Err(e) => {
                return Err(Error::Parsning(e));
            },
        };
        Ok(BoardPosition { file, rank })
    }

    /// Steps by `rhs`, towards rank `Eight` and file `H`; fails when the
    /// result would leave the board.
    pub fn add_offset(self, rhs: MoveOffset) -> (r: Result<BoardPosition, Error>)
        ensures
            match r {
                Ok(p) => self.rank.index() + rhs.0 <= 7 && self.file.index() + rhs.1 <= 7
                    && p.rank.index() == self.rank.index() + rhs.0 && p.file.index()
                    == self.file.index() + rhs.1,
                Err(e) => (self.rank.index() + rhs.0 > 7 || self.file.index() + rhs.1 > 7)
                    && e matches Error::Parsning(_),
            },
    {
        let rank = match self.rank.add_offset(rhs.0) {
            Ok(k) => k,
            Err(e) => {
                return Err(Error::Parsning(e));
            },
        };
        let file = match self.file.add_offset(rhs.1) {
            Ok(f) => f,
            Err(e) => {
                return Err(Error::Parsning(e));
            },
        };
        Ok(BoardPosition { file, rank })
    }
}

/// Every square's number is below 64.
pub broadcast proof fn lemma_idx_bound(p: BoardPosition)
    ensures
        #[trigger] p.idx() < 64,
        p.idx() as int == p.rank.index() * 8 + p.file.index(),
{
}

impl core::str::FromStr for BoardPosition {
    type Err = Error;

    fn from_str(s: &str) -> Result<Self, Error> {
        BoardPosition::parse_str(s)
    }
}

} // verus!

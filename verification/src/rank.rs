//! Board ranks 1 through 8, with bounds-checked conversions and offset
//! arithmetic mirroring [`crate::file::File`].

use vstd::prelude::*;

use crate::errors::ExpectedOneOf;
use crate::errors::ParsingError;

verus! {

/// A row of the board, `One` being White's back rank.
#[derive(Debug, Clone, Copy, PartialEq, Eq, Structural)]
pub enum Rank {
    One,
    Two,
    Three,
    Four,
    Five,
    Six,
    Seven,
    Eight,
}

impl Rank {
    /// Zero-based position of the rank, `One` being 0 and `Eight` being 7.
    pub open spec fn index(self) -> int {
        match self {
            Rank::One => 0,
            Rank::Two => 1,
            Rank::Three => 2,
            Rank::Four => 3,
            Rank::Five => 4,
            Rank::Six => 5,
            Rank::Seven => 6,
            Rank::Eight => 7,
        }
    }

    /// The rank named by a digit `1` through `8`.
    pub open spec fn spec_from_char(c: char) -> Option<Rank> {
        match c {
            '1' => Some(Rank::One),
            '2' => Some(Rank::Two),
            '3' => Some(Rank::Three),
            '4' => Some(Rank::Four),
            '5' => Some(Rank::Five),
            '6' => Some(Rank::Six),
            '7' => Some(Rank::Seven),
            '8' => Some(Rank::Eight),
            _ => None,
        }
    }

    pub fn from_char(value: char) -> (r: Result<Rank, ParsingError>)
        ensures
            match r {
                Ok(f) => Self::spec_from_char(value) == Some(f),
                Err(e) => Self::spec_from_char(value) is None && (e matches ParsingError::NotARank(
                    _,
                ) || e matches ParsingError::NotAFile(_)),
            },
    {
        if value == '0' || value == '9' {
            // A digit, but no rank of the board carries it.
            return Err(ParsingError::NotARank(ExpectedOneOf::new(
                vec!['1', '2', '3', '4', '5', '6', '7', '8'],
                Some(value),
                None,
            )));
        }
        match value {
            '1' => Ok(Rank::One),
            '2' => Ok(Rank::Two),
            '3' => Ok(Rank::Three),
            '4' => Ok(Rank::Four),
            '5' => Ok(Rank::Five),
            '6' => Ok(Rank::Six),
            '7' => Ok(Rank::Seven),
            '8' => Ok(Rank::Eight),
            _ => Err(ParsingError::NotAFile(ExpectedOneOf::new(
                vec!['1', '2', '3', '4', '5', '6', '7', '8'],
                Some(value),
                None,
            ))),
        }
    }

    /// The rank at one-based position `value`, 1 for `One` through 8 for
    /// `Eight`.
    pub fn from_u8(value: u8) -> (r: Result<Rank, ParsingError>)
        ensures
            match r {
                Ok(f) => 1 <= value <= 8 && f.index() == value - 1,
                Err(e) => (value < 1 || value > 8) && e matches ParsingError::NotARank(_),
            },
    {
        match value {
            1 => Ok(Rank::One),
            2 => Ok(Rank::Two),
            3 => Ok(Rank::Three),
            4 => Ok(Rank::Four),
            5 => Ok(Rank::Five),
            6 => Ok(Rank::Six),
            7 => Ok(Rank::Seven),
            8 => Ok(Rank::Eight),
            _ => Err(ParsingError::NotARank(ExpectedOneOf::new(
                vec!['1', '2', '3', '4', '5', '6', '7', '8'],
                None,
                None,
            ))),
        }
    }

    /// One-based position of the rank, 1 for `One` through 8 for `Eight`.
    pub fn as_u8(self) -> (r: u8)
        ensures
            r == self.index() + 1,
    {
        match self {
            Rank::One => 1,
            Rank::Two => 2,
            Rank::Three => 3,
            Rank::Four => 4,
            Rank::Five => 5,
            Rank::Six => 6,
            Rank::Seven => 7,
            Rank::Eight => 8,
        }
    }

    /// Steps `rhs` ranks towards `Eight`; fails when that leaves the board.
    pub fn add_offset(self, rhs: u8) -> (r: Result<Rank, ParsingError>)
        ensures
            match r {
                Ok(f) => self.index() + rhs <= 7 && f.index() == self.index() + rhs,
                Err(e) => self.index() + rhs > 7 && e matches ParsingError::NotARank(_),
            },
    {
        let v = self.as_u8();
        if rhs <= 7 && v + rhs <= 8 {
            Self::from_u8(v + rhs)
        } else {
            Err(ParsingError::NotARank(ExpectedOneOf::new(
                vec!['1', '2', '3', '4', '5', '6', '7', '8'],
                None,
                None,
            )))
        }
    }

    /// Steps `rhs` ranks towards `One`; fails when that leaves the board.
    pub fn sub_offset(self, rhs: u8) -> (r: Result<Rank, ParsingError>)
        ensures
            match r {
                Ok(f) => rhs <= self.index() && f.index() == self.index() - rhs,
                Err(e) => rhs > self.index() && e matches ParsingError::NotARank(_),
            },
    {
        let v = self.as_u8();
        if rhs < v {
            Self::from_u8(v - rhs)
        } else {
            Err(ParsingError::NotARank(ExpectedOneOf::new(
                vec!['1', '2', '3', '4', '5', '6', '7', '8'],
                None,
                None,
            )))
        }
    }
}

} // verus!

//! Board files A through H, with bounds-checked conversions and offset
//! arithmetic: any step that would leave the board fails rather than
//! wrapping.

use vstd::prelude::*;

use crate::errors::ExpectedOneOf;
use crate::errors::ParsingError;

verus! {

/// A column of the board, `A` at square 0 of each rank.
#[derive(Debug, Clone, Copy, PartialEq, Eq, Structural)]
pub enum File {
    A,
    B,
    C,
    D,
    E,
    F,
    G,
    H,
}

impl File {
    /// Zero-based position of the file, `A` being 0 and `H` being 7.
    pub open spec fn index(self) -> int {
        match self {
            File::A => 0,
            File::B => 1,
            File::C => 2,
            File::D => 3,
            File::E => 4,
            File::F => 5,
            File::G => 6,
            File::H => 7,
        }
    }

    /// The file named by a lower-case letter `a` through `h`.
    pub open spec fn spec_from_char(c: char) -> Option<File> {
        match c {
            'a' => Some(File::A),
            'b' => Some(File::B),
            'c' => Some(File::C),
            'd' => Some(File::D),
            'e' => Some(File::E),
            'f' => Some(File::F),
            'g' => Some(File::G),
            'h' => Some(File::H),
            _ => None,
        }
    }

    pub fn from_char(value: char) -> (r: Result<File, ParsingError>)
        ensures
            match r {
                Ok(f) => Self::spec_from_char(value) == Some(f),
                Err(e) => Self::spec_from_char(value) is None && (e matches
                    ParsingError::NotAFile(one_of) && one_of.got == Some(value)),
            },
    {
        match value {
            'a' => Ok(File::A),
            'b' => Ok(File::B),
            'c' => Ok(File::C),
            'd' => Ok(File::D),
            'e' => Ok(File::E),
            'f' => Ok(File::F),
            'g' => Ok(File::G),
            'h' => Ok(File::H),
            _ => Err(ParsingError::NotAFile(ExpectedOneOf::new(
                vec!['a', 'b', 'c', 'd', 'e', 'f', 'g', 'h'],
                Some(value),
                None,
            ))),
        }
    }

    /// The file at one-based position `value`, 1 for `A` through 8 for `H`.
    pub fn from_u8(value: u8) -> (r: Result<File, ParsingError>)
        ensures
            match r {
                Ok(f) => 1 <= value <= 8 && f.index() == value - 1,
                Err(e) => (value < 1 || value > 8) && e matches ParsingError::NotAFile(_),
            },
    {
        match value {
            1 => Ok(File::A),
            2 => Ok(File::B),
            3 => Ok(File::C),
            4 => Ok(File::D),
            5 => Ok(File::E),
            6 => Ok(File::F),
            7 => Ok(File::G),
            8 => Ok(File::H),
            _ => Err(ParsingError::NotAFile(ExpectedOneOf::new(
                vec!['a', 'b', 'c', 'd', 'e', 'f', 'g', 'h'],
                None,
                None,
            ))),
        }
    }

    /// One-based position of the file, 1 for `A` through 8 for `H`.
    pub fn as_u8(self) -> (r: u8)
        ensures
            r == self.index() + 1,
    {
        match self {
            File::A => 1,
            File::B => 2,
            File::C => 3,
            File::D => 4,
            File::E => 5,
            File::F => 6,
            File::G => 7,
            File::H => 8,
        }
    }

    /// Steps `rhs` files towards `H`; fails when that leaves the board.
    pub fn add_offset(self, rhs: u8) -> (r: Result<File, ParsingError>)
        ensures
            match r {
                Ok(f) => self.index() + rhs <= 7 && f.index() == self.index() + rhs,
                Err(e) => self.index() + rhs > 7 && e matches ParsingError::NotAFile(_),
            },
    {
        let v = self.as_u8();
        if rhs <= 7 && v + rhs <= 8 {
            Self::from_u8(v + rhs)
        } else {
            Err(ParsingError::NotAFile(ExpectedOneOf::new(
                vec!['a', 'b', 'c', 'd', 'e', 'f', 'g', 'h'],
                None,
                None,
            )))
        }
    }

    /// Steps `rhs` files towards `A`; fails when that leaves the board.
    pub fn sub_offset(self, rhs: u8) -> (r: Result<File, ParsingError>)
        ensures
            match r {
                Ok(f) => rhs <= self.index() && f.index() == self.index() - rhs,
                Err(e) => rhs > self.index() && e matches ParsingError::NotAFile(_),
            },
    {
        let v = self.as_u8();
        if rhs < v {
            Self::from_u8(v - rhs)
        } else {
            Err(ParsingError::NotAFile(ExpectedOneOf::new(
                vec!['a', 'b', 'c', 'd', 'e', 'f', 'g', 'h'],
                None,
                None,
            )))
        }
    }
}

} // verus!

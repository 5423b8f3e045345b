//! The error taxonomy of the engine: parsing failures on notation input
//! and board failures on illegal primitive operations.

use vstd::prelude::*;

verus! {

/// Any failure the engine surfaces to a caller.
#[derive(Debug, Clone, PartialEq)]
pub enum Error {
    Parsning(ParsingError),
    Board(BoardError),
}

/// A failure while reading algebraic notation.
#[derive(Debug, Clone, PartialEq)]
pub enum ParsingError {
    /// A `{...}` comment span was opened and never closed, or a stray
    /// closing brace remained after stripping.
    UnbalancedBraces(ExpectedOneOf),
    ExpectedOneOf(ExpectedOneOf),
    CharOverflow,
    CharUnderflow,
    NotAFile(ExpectedOneOf),
    NotARank(ExpectedOneOf),
    /// More than one origin square remained after applying every
    /// disambiguation hint of the token.
    AmbiguousMove,
}

/// What a parser expected at some point of the input, what it got, and
/// the complete input it was reading, when available.
#[derive(Debug, Clone, PartialEq)]
pub struct ExpectedOneOf {
    pub excpected: Vec<char>,
    pub got: Option<char>,
    pub complete: Option<String>,
}

impl ExpectedOneOf {
    pub fn new(excpected: Vec<char>, got: Option<char>, complete: Option<String>) -> (r: Self)
        ensures
            r.excpected == excpected,
            r.got == got,
            r.complete == complete,
    {
        Self { excpected, got, complete }
    }
}

/// A failure of a primitive board mutation.
#[derive(Debug, Clone, Copy, PartialEq, Eq, Structural)]
pub enum BoardError {
    /// A required square held no piece, or an insert found its slot
    /// already taken.
    PieceMissing,
    /// The destination of a bare move was already occupied; a capture
    /// must go through a take first.
    PieceWhereMoving,
    /// No piece could reach the requested destination.
    PieceNotInPlay,
    /// A capture was attempted on a piece of the mover's own colour.
    SameColor,
}

impl From<ParsingError> for Error {
    fn from(value: ParsingError) -> (r: Self) {
        Error::Parsning(value)
    }
}

impl vstd::std_specs::convert::FromSpecImpl<ParsingError> for Error {
    open spec fn obeys_from_spec() -> bool {
        true
    }

    open spec fn from_spec(value: ParsingError) -> Self {
        Error::Parsning(value)
    }
}

impl From<BoardError> for Error {
    fn from(value: BoardError) -> (r: Self) {
        Error::Board(value)
    }
}

impl vstd::std_specs::convert::FromSpecImpl<BoardError> for Error {
    open spec fn obeys_from_spec() -> bool {
        true
    }

    open spec fn from_spec(value: BoardError) -> Self {
        Error::Board(value)
    }
}

} // verus!

//! A chess rules engine built on 64-bit occupancy sets.
//!
//! The board is modelled as six piece layers, one per piece kind, each
//! holding one bitboard per colour.  Movement is decided by precomputed
//! attack tables plus occupancy, moves are executed through a closed
//! `Actions` type, and an append-only history records every executed
//! action.

pub mod actions;
pub mod bitmap;
pub mod board;
pub mod errors;
pub mod file;
pub mod history;
pub mod movegen;
pub mod notation;
pub mod pieces;
pub mod position;
pub mod rank;
pub mod tables;

use vstd::prelude::*;

verus! {

} // verus!

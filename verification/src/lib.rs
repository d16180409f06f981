//! Wire encoding of guest call outcomes and checked descriptions of guest
//! memory regions.
//!
//! A guest call hands one 32-bit word back to its host. The word is zero for
//! success, carries an error code in its upper half when its lower half is
//! zero, and otherwise packs the offset and the length of a result buffer in
//! guest memory.

pub mod bits_n_pieces;
pub mod error;
pub mod memory;
pub mod text;

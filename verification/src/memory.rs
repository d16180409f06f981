//! Guest memory: the integers that measure it, and checked descriptions of
//! regions in it.

pub mod allocation;
pub mod ribosome;

use vstd::prelude::*;

verus! {

/// The integer that holds an offset into guest memory or a length in it.
pub type MemoryInt = u16;

/// The integer in which two `MemoryInt` are added without overflow, and
/// which packs two of them.
pub type MemoryBits = u32;

/// The largest `MemoryInt`, held as `MemoryBits` so that a sum of two
/// `MemoryInt` can be compared against it.
pub const MEMORY_INT_MAX: MemoryBits = 0xffff;

} // verus!

//! How a byte stream is cut into chunks.

use vstd::prelude::*;

verus! {

/// Bit width of the rolling window that `Chunking::default` selects.
pub const DEFAULT_BUP_CHUNK_BITS: u32 = 17;

/// Smallest accepted bit width (chunks of about 1 KiB).
pub const MIN_CHUNK_BITS: u32 = 10;

/// Largest accepted bit width (chunks of about 1 GiB).
pub const MAX_CHUNK_BITS: u32 = 30;

/// The chunking algorithms a repository can name, each with the bit width of
/// its rolling window.
#[derive(Copy, Clone, Debug, PartialEq, Eq, Structural)]
pub enum Chunking {
    Bup { chunk_bits: u32 },
    Gear { chunk_bits: u32 },
}

impl Chunking {
    /// The bit width, whichever the algorithm.
    pub open spec fn bits(self) -> u32 {
        match self {
            Chunking::Bup { chunk_bits } => chunk_bits,
            Chunking::Gear { chunk_bits } => chunk_bits,
        }
    }

    /// A width is acceptable when it lies between 10 and 30, both included.
    pub open spec fn spec_valid(self) -> bool {
        MIN_CHUNK_BITS <= self.bits() <= MAX_CHUNK_BITS
    }

    /// Whether the bit width lies in the accepted range.
    pub fn valid(self) -> (ok: bool)
        ensures
            ok == self.spec_valid(),
            ok == (10 <= self.bits() && self.bits() <= 30),
    {
        match self {
            Chunking::Bup { chunk_bits: bits } => MAX_CHUNK_BITS >= bits && bits >= MIN_CHUNK_BITS,
            Chunking::Gear { chunk_bits: bits } => MAX_CHUNK_BITS >= bits && bits >= MIN_CHUNK_BITS,
        }
    }

    /// The bit width of the rolling window.
    pub fn chunk_bits(self) -> (bits: u32)
        ensures
            bits == self.bits(),
    {
        match self {
            Chunking::Bup { chunk_bits } => chunk_bits,
            Chunking::Gear { chunk_bits } => chunk_bits,
        }
    }
}

impl Default for Chunking {
    fn default() -> (c: Chunking)
        ensures
            c == (Chunking::Bup { chunk_bits: DEFAULT_BUP_CHUNK_BITS }),
    {
        Chunking::Bup { chunk_bits: DEFAULT_BUP_CHUNK_BITS }
    }
}

} // verus!

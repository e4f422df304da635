use vstd::prelude::*;

verus! {

/// Why a structure could not be decoded. Offsets count from the start of the
/// buffer that was being decoded.
#[derive(Debug, Clone, Copy, PartialEq, Eq)]
pub enum DecodeError {
    /// Fewer than `needed` bytes were left at `offset`.
    Truncated { offset: usize, needed: u32 },
    /// The cell at `offset` declares a size field whose magnitude is under 6 or not a
    /// multiple of 8.
    CellSize { offset: usize, raw_size: i32 },
    /// The bin at `offset` declares a size under the 32 bytes of its own header.
    BinSize { offset: usize, size: u32 },
}

} // verus!

use vstd::prelude::*;

use crate::bytes::{i32_at, read_i32};
use crate::cell_type::{kind_of, CellType};
use crate::error::DecodeError;

verus! {

/// One record inside a bin: a signed size, a kind and an opaque payload.
#[derive(Debug, Clone)]
pub struct Cell {
    /// Negative for an allocated cell, non-negative for a free one; its
    /// magnitude is the length of the whole cell, size field included.
    pub size: i32,
    pub cell_type: CellType,
    /// The `|size| - 6` bytes that follow the kind tag.
    pub data: Vec<u8>,
}

/// What a cell holds, as mathematical values.
pub struct CellView {
    pub size: i32,
    pub kind: CellType,
    pub data: Seq<u8>,
}

impl View for Cell {
    type V = CellView;

    open spec fn view(&self) -> CellView {
        CellView { size: self.size, kind: self.cell_type, data: self.data@ }
    }
}

/// The length in bytes that a size field declares, whatever its sign.
pub open spec fn magnitude(size: i32) -> int {
    if size < 0 {
        -size
    } else {
        size as int
    }
}

/// A cell is at least as long as its size field and tag, and a multiple of 8.
pub open spec fn valid_cell_size(size: i32) -> bool {
    magnitude(size) >= 6 && magnitude(size) % 8 == 0
}

/// The outcome of decoding the cell that starts at `pos` in `s`.
pub open spec fn cell_at(s: Seq<u8>, pos: int) -> Result<CellView, DecodeError> {
    if s.len() < pos + 4 {
        Err(DecodeError::Truncated { offset: pos as usize, needed: 4 })
    } else {
        let size = i32_at(s, pos);
        if !valid_cell_size(size) {
            Err(DecodeError::CellSize { offset: pos as usize, raw_size: size })
        } else if s.len() < pos + magnitude(size) {
            Err(DecodeError::Truncated { offset: pos as usize, needed: magnitude(size) as u32 })
        } else {
            Ok(
                CellView {
                    size,
                    kind: kind_of(s[pos + 4], s[pos + 5]),
                    data: s.subrange(pos + 6, pos + magnitude(size)),
                },
            )
        }
    }
}

/// `r` is the decoded form of the outcome `m`.
pub open spec fn cell_result_is(r: Result<Cell, DecodeError>, m: Result<CellView, DecodeError>) -> bool {
    match r {
        Ok(c) => m == Ok::<CellView, DecodeError>(c@),
        Err(e) => m == Err::<CellView, DecodeError>(e),
    }
}

/// The cells decoded from `pos` to the end of a bin payload `s`, and the error
/// that stopped decoding, if one did.
pub open spec fn cells_from(s: Seq<u8>, pos: int) -> (Seq<CellView>, Option<DecodeError>)
    decreases s.len() - pos,
{
    if pos < 0 || pos >= s.len() {
        (Seq::empty(), None)
    } else {
        match cell_at(s, pos) {
            Err(e) => (Seq::empty(), Some(e)),
            Ok(c) => {
                let rest = cells_from(s, pos + magnitude(c.size));
                (seq![c] + rest.0, rest.1)
            },
        }
    }
}

/// The magnitudes of the cells' sizes, added up.
pub open spec fn total_size(cells: Seq<CellView>) -> int
    decreases cells.len(),
{
    if cells.len() == 0 {
        0
    } else {
        magnitude(cells[0].size) + total_size(cells.drop_first())
    }
}

impl Cell {
    /// Decodes the cell that starts at `pos`: a little-endian signed size, a
    /// two-byte kind tag, and `|size| - 6` payload bytes.
    pub fn decode(data: &[u8], pos: usize) -> (r: Result<Cell, DecodeError>)
        requires
            pos <= data@.len(),
        ensures
            cell_result_is(r, cell_at(data@, pos as int)),
            r is Ok ==> valid_cell_size(r->Ok_0.size),
    {
        let len = data.len();
        if len - pos < 4 {
            return Err(DecodeError::Truncated { offset: pos, needed: 4 });
        }
        let size = read_i32(data, pos);
        let m = unsigned_magnitude(size);
        if m < 6 || m % 8 != 0 {
            return Err(DecodeError::CellSize { offset: pos, raw_size: size });
        }
        if ((len - pos) as u64) < m as u64 {
            return Err(DecodeError::Truncated { offset: pos, needed: m });
        }
        let end = pos + m as usize;
        let cell_type = CellType::from_tag([data[pos + 4], data[pos + 5]]);
        let payload = crate::bytes::copy_range(data, pos + 6, end);
        Ok(Cell { size, cell_type, data: payload })
    }

    /// The length of the cell in bytes, size field included.
    pub fn magnitude(&self) -> (r: u32)
        ensures
            r == magnitude(self.size),
    {
        unsigned_magnitude(self.size)
    }

    /// Whether the cell is in use: its size field is negative.
    pub fn is_allocated(&self) -> (r: bool)
        ensures
            r == (self.size < 0),
    {
        self.size < 0
    }
}

fn unsigned_magnitude(size: i32) -> (r: u32)
    ensures
        r == magnitude(size),
{
    if size < 0 {
        (-(size as i64)) as u32
    } else {
        size as u32
    }
}

} // verus!

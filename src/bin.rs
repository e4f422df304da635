use vstd::prelude::*;

use crate::bytes::{read_u32, read_u64, u32_at, u64_at};
use crate::cell::{cell_at, cell_result_is, cells_from, magnitude, Cell, CellView};
use crate::error::DecodeError;

verus! {

/// The length of a bin header in bytes.
pub const BIN_HEADER_LEN: u32 = 32;

/// The fixed 32-byte header that opens every bin.
#[derive(Debug, Clone, Copy, PartialEq, Eq)]
pub struct HiveBinHeader {
    /// ASCII `hbin` in a well-formed file.
    pub signature: [u8; 4],
    /// Offset of this bin from the start of the bin data.
    pub offset: u32,
    /// Size of this bin in bytes, header included.
    pub size: u32,
    pub reserved: u64,
    /// FILETIME, meaningful for the first bin only.
    pub timestamp: u64,
    pub spare: u32,
}

/// The header laid out in the 32 bytes from `pos`.
pub open spec fn header_at(s: Seq<u8>, pos: int) -> HiveBinHeader {
    HiveBinHeader {
        signature: [s[pos], s[pos + 1], s[pos + 2], s[pos + 3]],
        offset: u32_at(s, pos + 4),
        size: u32_at(s, pos + 8),
        reserved: u64_at(s, pos + 12),
        timestamp: u64_at(s, pos + 20),
        spare: u32_at(s, pos + 28),
    }
}

/// The outcome of decoding a bin header at `pos`.
pub open spec fn header_result(s: Seq<u8>, pos: int) -> Result<HiveBinHeader, DecodeError> {
    if s.len() < pos + 32 {
        Err(DecodeError::Truncated { offset: pos as usize, needed: 32 })
    } else {
        Ok(header_at(s, pos))
    }
}

impl HiveBinHeader {
    /// Decodes the bin header that starts at `pos`.
    pub fn decode(data: &[u8], pos: usize) -> (r: Result<HiveBinHeader, DecodeError>)
        requires
            pos <= data@.len(),
        ensures
            r == header_result(data@, pos as int),
    {
        let len = data.len();
        if len - pos < 32 {
            return Err(DecodeError::Truncated { offset: pos, needed: 32 });
        }
        Ok(
            HiveBinHeader {
                signature: [data[pos], data[pos + 1], data[pos + 2], data[pos + 3]],
                offset: read_u32(data, pos + 4),
                size: read_u32(data, pos + 8),
                reserved: read_u64(data, pos + 12),
                timestamp: read_u64(data, pos + 20),
                spare: read_u32(data, pos + 28),
            },
        )
    }
}

/// A bin: its header, and the `size - 32` payload bytes that hold its cells,
/// with a cursor that walks the cells forward.
#[derive(Debug)]
pub struct HiveBin {
    header: HiveBinHeader,
    cells_data: Vec<u8>,
    current_cells_size: u32,
    failed: bool,
}

/// What a bin holds, as mathematical values.
pub struct HiveBinView {
    pub header: HiveBinHeader,
    pub payload: Seq<u8>,
    /// Bytes of the payload taken by the cells decoded so far.
    pub consumed: int,
    /// A cell failed to decode; no further cell is read.
    pub failed: bool,
}

impl View for HiveBin {
    type V = HiveBinView;

    closed spec fn view(&self) -> HiveBinView {
        HiveBinView {
            header: self.header,
            payload: self.cells_data@,
            consumed: self.current_cells_size as int,
            failed: self.failed,
        }
    }
}

impl HiveBinView {
    /// The payload fills the bin after its header, and the cursor stays in it.
    pub open spec fn wf(self) -> bool {
        &&& self.header.size >= 32
        &&& self.payload.len() == self.header.size - 32
        &&& 0 <= self.consumed <= self.payload.len()
    }

    /// No cell is left to read.
    pub open spec fn done(self) -> bool {
        self.failed || self.consumed >= self.payload.len()
    }
}

/// The outcome of decoding the bin that starts at `pos`.
pub open spec fn bin_at(s: Seq<u8>, pos: int) -> Result<HiveBinView, DecodeError> {
    if s.len() < pos + 32 {
        Err(DecodeError::Truncated { offset: pos as usize, needed: 32 })
    } else {
        let h = header_at(s, pos);
        if h.size < 32 {
            Err(DecodeError::BinSize { offset: pos as usize, size: h.size })
        } else if s.len() < pos + h.size {
            Err(DecodeError::Truncated { offset: (pos + 32) as usize, needed: (h.size - 32) as u32 })
        } else {
            Ok(
                HiveBinView {
                    header: h,
                    payload: s.subrange(pos + 32, pos + h.size),
                    consumed: 0,
                    failed: false,
                },
            )
        }
    }
}

/// `r` is the decoded form of the outcome `m`.
pub open spec fn bin_result_is(r: Result<HiveBin, DecodeError>, m: Result<HiveBinView, DecodeError>) -> bool {
    match r {
        Ok(b) => m == Ok::<HiveBinView, DecodeError>(b@),
        Err(e) => m == Err::<HiveBinView, DecodeError>(e),
    }
}

impl HiveBin {
    #[verifier::type_invariant]
    spec fn inv(&self) -> bool {
        self@.wf()
    }

    /// Decodes the bin that starts at `pos`: its header, then the payload
    /// that the header's size declares.
    pub fn decode(data: &[u8], pos: usize) -> (r: Result<HiveBin, DecodeError>)
        requires
            pos <= data@.len(),
        ensures
            bin_result_is(r, bin_at(data@, pos as int)),
            r is Ok ==> r->Ok_0@.wf(),
    {
        let len = data.len();
        let header = match HiveBinHeader::decode(data, pos) {
            Ok(h) => h,
            Err(e) => return Err(e),
        };
        if header.size < BIN_HEADER_LEN {
            return Err(DecodeError::BinSize { offset: pos, size: header.size });
        }
        let payload_len = header.size - BIN_HEADER_LEN;
        if len - pos - 32 < payload_len as usize {
            return Err(DecodeError::Truncated { offset: pos + 32, needed: payload_len });
        }
        let cells_data = crate::bytes::copy_range(data, pos + 32, pos + 32 + payload_len as usize);
        Ok(HiveBin { header, cells_data, current_cells_size: 0, failed: false })
    }

    pub fn header(&self) -> (r: HiveBinHeader)
        ensures
            r == self@.header,
    {
        self.header
    }

    /// The payload bytes that hold the cells.
    pub fn cells_data(&self) -> (r: &[u8])
        ensures
            r@ == self@.payload,
    {
        self.cells_data.as_slice()
    }

    /// Decodes the next cell of the bin. Yields `None` once the cells decoded
    /// so far fill the payload, or after a cell failed to decode.
    pub fn next_cell(&mut self) -> (r: Option<Result<Cell, DecodeError>>)
        ensures
            final(self)@.header == old(self)@.header,
            final(self)@.payload == old(self)@.payload,
            final(self)@.wf(),
            old(self)@.done() ==> r is None && final(self)@ == old(self)@,
            !old(self)@.done() ==> r is Some && cell_result_is(
                r->Some_0,
                cell_at(old(self)@.payload, old(self)@.consumed),
            ),
            r matches Some(Ok(c)) ==> final(self)@.consumed == old(self)@.consumed + magnitude(c.size)
                && !final(self)@.failed,
            r matches Some(Err(_)) ==> final(self)@.consumed == old(self)@.consumed
                && final(self)@.failed,
    {
        proof {
            use_type_invariant(&*self);
        }
        if self.failed || self.current_cells_size as usize >= self.cells_data.len() {
            return None;
        }
        match Cell::decode(self.cells_data.as_slice(), self.current_cells_size as usize) {
            Ok(c) => {
                self.current_cells_size = self.current_cells_size + c.magnitude();
                Some(Ok(c))
            },
            Err(e) => {
                self.failed = true;
                Some(Err(e))
            },
        }
    }

    /// Decodes the cells left in the bin, in order, until the payload is
    /// used up or a cell fails to decode; the error, if any, comes last.
    pub fn read_cells(&mut self) -> (r: (Vec<Cell>, Option<DecodeError>))
        ensures
            final(self)@.header == old(self)@.header,
            final(self)@.payload == old(self)@.payload,
            final(self)@.done(),
            !old(self)@.failed ==> (r.0@.map_values(|c: Cell| c@), r.1) == cells_from(
                old(self)@.payload,
                old(self)@.consumed,
            ),
            old(self)@.failed ==> (r.0@.len() == 0 && r.1 is None),
    {
        proof {
            use_type_invariant(&*self);
        }
        let mut cells: Vec<Cell> = Vec::new();
        if self.failed {
            return (cells, None);
        }
        let ghost payload = self@.payload;
        let ghost start = self@.consumed;
        loop
            invariant
                self@.header == old(self)@.header,
                self@.payload == payload,
                payload == old(self)@.payload,
                start == old(self)@.consumed,
                !old(self)@.failed,
                !self@.failed,
                self@.wf(),
                cells_from(payload, start) == (
                    cells@.map_values(|c: Cell| c@) + cells_from(payload, self@.consumed).0,
                    cells_from(payload, self@.consumed).1,
                ),
            decreases payload.len() - self@.consumed,
        {
            let ghost before = cells@.map_values(|c: Cell| c@);
            let ghost at = self@.consumed;
            match self.next_cell() {
                None => {
                    assert(cells@.map_values(|c: Cell| c@) + Seq::<CellView>::empty()
                        =~= cells@.map_values(|c: Cell| c@));
                    return (cells, None);
                },
                Some(Ok(c)) => {
                    let ghost cv = c@;
                    cells.push(c);
                    assert(cells@.map_values(|c: Cell| c@) =~= before.push(cv));
                    assert(before + cells_from(payload, at).0 =~= cells@.map_values(|c: Cell| c@)
                        + cells_from(payload, self@.consumed).0);
                },
                Some(Err(e)) => {
                    assert(cells@.map_values(|c: Cell| c@) + Seq::<CellView>::empty()
                        =~= cells@.map_values(|c: Cell| c@));
                    return (cells, Some(e));
                },
            }
        }
    }
}

} // verus!

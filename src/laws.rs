use vstd::prelude::*;

use crate::base_block::BaseBlock;
use crate::bin::{bin_at, header_at};
use crate::bytes::{u16_at, u32_at, u64_at};
use crate::cell::{cell_at, cells_from, magnitude, total_size, valid_cell_size};
use crate::reader::RegistryFileView;

verus! {

/// Decoding the cells of a payload from `pos` either fills the payload
/// exactly, their sizes adding up to its remaining length, or stops on an
/// error before that length is reached. Every decoded cell has a size that
/// is a multiple of 8 and at least 6.
pub proof fn lemma_cells_fill_payload(s: Seq<u8>, pos: int)
    requires
        0 <= pos <= s.len(),
    ensures
        cells_from(s, pos).1 is None ==> pos + total_size(cells_from(s, pos).0) == s.len(),
        cells_from(s, pos).1 is Some ==> pos + total_size(cells_from(s, pos).0) < s.len(),
        forall|i: int|
            0 <= i < cells_from(s, pos).0.len() ==> valid_cell_size(
                #[trigger] cells_from(s, pos).0[i].size,
            ),
    decreases s.len() - pos,
{
    if pos < s.len() {
        if let Ok(c) = cell_at(s, pos) {
            let next = pos + magnitude(c.size);
            lemma_cells_fill_payload(s, next);
            let cells = cells_from(s, pos).0;
            assert(cells.drop_first() =~= cells_from(s, next).0);
            assert forall|i: int| 0 <= i < cells.len() implies valid_cell_size(
                #[trigger] cells[i].size,
            ) by {
                if i > 0 {
                    assert(cells[i] == cells_from(s, next).0[i - 1]);
                }
            }
        }
    }
}

proof fn lemma_ints_agree(a: Seq<u8>, b: Seq<u8>, lo: int, hi: int, off: int)
    requires
        0 <= lo <= off,
        off + 8 <= hi,
        hi <= a.len(),
        hi <= b.len(),
        a.subrange(lo, hi) == b.subrange(lo, hi),
    ensures
        u16_at(a, off) == u16_at(b, off),
        u32_at(a, off) == u32_at(b, off),
        u64_at(a, off) == u64_at(b, off),
{
    assert forall|k: int| off <= k < off + 8 implies a[k] == b[k] by {
        assert(a[k] == a.subrange(lo, hi)[k - lo]);
        assert(b[k] == b.subrange(lo, hi)[k - lo]);
    }
}

proof fn lemma_u32_agree(a: Seq<u8>, b: Seq<u8>, lo: int, hi: int, off: int)
    requires
        0 <= lo <= off,
        off + 4 <= hi,
        hi <= a.len(),
        hi <= b.len(),
        a.subrange(lo, hi) == b.subrange(lo, hi),
    ensures
        u16_at(a, off) == u16_at(b, off),
        u32_at(a, off) == u32_at(b, off),
{
    assert forall|k: int| off <= k < off + 4 implies a[k] == b[k] by {
        assert(a[k] == a.subrange(lo, hi)[k - lo]);
        assert(b[k] == b.subrange(lo, hi)[k - lo]);
    }
}

/// A decoded cell is a function of the bytes it spans alone: any buffer that
/// holds the same bytes at the same place decodes to the same cell.
pub proof fn lemma_cell_depends_on_its_bytes(a: Seq<u8>, b: Seq<u8>, pos: int)
    requires
        0 <= pos,
        cell_at(a, pos) is Ok,
        pos + magnitude(cell_at(a, pos)->Ok_0.size) <= b.len(),
        a.subrange(pos, pos + magnitude(cell_at(a, pos)->Ok_0.size)) == b.subrange(
            pos,
            pos + magnitude(cell_at(a, pos)->Ok_0.size),
        ),
    ensures
        cell_at(b, pos) == cell_at(a, pos),
{
    let end = pos + magnitude(cell_at(a, pos)->Ok_0.size);
    lemma_u32_agree(a, b, pos, end, pos);
    assert(a[pos + 4] == a.subrange(pos, end)[4]);
    assert(b[pos + 4] == b.subrange(pos, end)[4]);
    assert(a[pos + 5] == a.subrange(pos, end)[5]);
    assert(b[pos + 5] == b.subrange(pos, end)[5]);
    assert(a.subrange(pos + 6, end) =~= a.subrange(pos, end).subrange(6, end - pos));
    assert(b.subrange(pos + 6, end) =~= b.subrange(pos, end).subrange(6, end - pos));
}

/// A decoded bin is a function of the bytes it spans alone: any stream that
/// holds the same bytes at the same place decodes to the same bin.
pub proof fn lemma_bin_depends_on_its_bytes(a: Seq<u8>, b: Seq<u8>, pos: int)
    requires
        0 <= pos,
        bin_at(a, pos) is Ok,
        pos + bin_at(a, pos)->Ok_0.header.size <= b.len(),
        a.subrange(pos, pos + bin_at(a, pos)->Ok_0.header.size) == b.subrange(
            pos,
            pos + bin_at(a, pos)->Ok_0.header.size,
        ),
    ensures
        bin_at(b, pos) == bin_at(a, pos),
{
    let end = pos + bin_at(a, pos)->Ok_0.header.size;
    assert forall|k: int| pos <= k < pos + 32 implies a[k] == b[k] by {
        assert(a[k] == a.subrange(pos, end)[k - pos]);
        assert(b[k] == b.subrange(pos, end)[k - pos]);
    }
    lemma_ints_agree(a, b, pos, end, pos + 4);
    lemma_ints_agree(a, b, pos, end, pos + 12);
    lemma_ints_agree(a, b, pos, end, pos + 20);
    lemma_u32_agree(a, b, pos, end, pos + 28);
    assert(header_at(a, pos) == header_at(b, pos));
    assert(a.subrange(pos + 32, end) =~= a.subrange(pos, end).subrange(32, end - pos));
    assert(b.subrange(pos + 32, end) =~= b.subrange(pos, end).subrange(32, end - pos));
}

/// A decoded base block is a function of the first 4096 bytes alone.
pub proof fn lemma_base_block_depends_on_its_bytes(blk: BaseBlock, a: Seq<u8>, b: Seq<u8>)
    requires
        blk.decoded_from(a),
        b.len() >= 4096,
        a.subrange(0, 4096) == b.subrange(0, 4096),
    ensures
        blk.decoded_from(b),
{
    assert forall|k: int| 0 <= k < 4096 implies a[k] == b[k] by {
        assert(a[k] == a.subrange(0, 4096)[k]);
        assert(b[k] == b.subrange(0, 4096)[k]);
    }
    assert(a.subrange(0, 4) =~= b.subrange(0, 4));
    assert(a.subrange(112, 508) =~= b.subrange(112, 508));
    assert(a.subrange(512, 4088) =~= b.subrange(512, 4088));
}

/// A base block that declares no bin data leaves the reader with no bin to
/// read.
pub proof fn lemma_empty_hive_has_no_bins(data: Seq<u8>, blk: BaseBlock)
    requires
        blk.decoded_from(data),
        blk.hive_bins_data_size == 0,
    ensures
        RegistryFileView::after_header(data, blk).done(),
{
}

} // verus!

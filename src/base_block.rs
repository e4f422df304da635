use vstd::prelude::*;

use crate::bytes::{copy_range, read_u16, read_u32, read_u64, u16_at, u32_at, u64_at};
use crate::error::DecodeError;

verus! {

/// The length of the base block in bytes.
pub const BASE_BLOCK_LEN: u32 = 4096;

/// The fixed header at the start of a hive file.
#[derive(Debug, Clone)]
pub struct BaseBlock {
    /// ASCII `regf` in a well-formed file.
    pub signature: [u8; 4],
    /// Incremented when a write to the file begins.
    pub primary_sequence_number: u32,
    /// Incremented when a write to the file ends; equal to the primary number
    /// after a clean write.
    pub secondary_sequence_number: u32,
    /// FILETIME (UTC).
    pub last_written_timestamp: u64,
    pub major_version: u32,
    pub minor_version: u32,
    /// 0 for a primary file.
    pub file_type: u32,
    /// 1 for a direct memory load.
    pub file_format: u32,
    /// Offset of the root cell from the start of the bin data.
    pub root_cell_offset: u32,
    /// Size in bytes of the bin data that follows the base block.
    pub hive_bins_data_size: u32,
    /// Logical sector size of the disk divided by 512.
    pub clustering_factor: u32,
    /// 32 UTF-16LE code units naming the file, for debugging.
    pub file_name: Vec<u16>,
    /// 396 reserved bytes.
    pub reserved1: Vec<u8>,
    /// XOR-32 checksum of the 508 bytes before it.
    pub checksum: u32,
    /// 3576 reserved bytes.
    pub reserved2: Vec<u8>,
    pub boot_type: u32,
    pub boot_recover: u32,
}

impl BaseBlock {
    /// Every field holds what the first 4096 bytes of `s` lay out for it.
    pub open spec fn decoded_from(&self, s: Seq<u8>) -> bool {
        &&& s.len() >= 4096
        &&& self.signature@ == s.subrange(0, 4)
        &&& self.primary_sequence_number == u32_at(s, 4)
        &&& self.secondary_sequence_number == u32_at(s, 8)
        &&& self.last_written_timestamp == u64_at(s, 12)
        &&& self.major_version == u32_at(s, 20)
        &&& self.minor_version == u32_at(s, 24)
        &&& self.file_type == u32_at(s, 28)
        &&& self.file_format == u32_at(s, 32)
        &&& self.root_cell_offset == u32_at(s, 36)
        &&& self.hive_bins_data_size == u32_at(s, 40)
        &&& self.clustering_factor == u32_at(s, 44)
        &&& self.file_name@.len() == 32
        &&& forall|i: int| 0 <= i < 32 ==> #[trigger] self.file_name@[i] == u16_at(s, 48 + 2 * i)
        &&& self.reserved1@ == s.subrange(112, 508)
        &&& self.checksum == u32_at(s, 508)
        &&& self.reserved2@ == s.subrange(512, 4088)
        &&& self.boot_type == u32_at(s, 4088)
        &&& self.boot_recover == u32_at(s, 4092)
    }

    /// Decodes the base block from the first 4096 bytes of `data`. Neither the
    /// signature nor the checksum is checked here.
    pub fn decode(data: &[u8]) -> (r: Result<BaseBlock, DecodeError>)
        ensures
            r is Err <==> data@.len() < 4096,
            r is Err ==> r == Err::<BaseBlock, DecodeError>(
                DecodeError::Truncated { offset: 0, needed: 4096 },
            ),
            r matches Ok(b) ==> b.decoded_from(data@),
    {
        if data.len() < BASE_BLOCK_LEN as usize {
            return Err(DecodeError::Truncated { offset: 0, needed: BASE_BLOCK_LEN });
        }
        let signature = [data[0], data[1], data[2], data[3]];
        assert(signature@ =~= data@.subrange(0, 4));
        let mut file_name: Vec<u16> = Vec::with_capacity(32);
        let mut i: usize = 0;
        while i < 32
            invariant
                i <= 32,
                data@.len() >= 4096,
                file_name@.len() == i,
                forall|j: int| 0 <= j < i ==> #[trigger] file_name@[j] == u16_at(data@, 48 + 2 * j),
            decreases 32 - i,
        {
            file_name.push(read_u16(data, 48 + 2 * i));
            i = i + 1;
        }
        Ok(
            BaseBlock {
                signature,
                primary_sequence_number: read_u32(data, 4),
                secondary_sequence_number: read_u32(data, 8),
                last_written_timestamp: read_u64(data, 12),
                major_version: read_u32(data, 20),
                minor_version: read_u32(data, 24),
                file_type: read_u32(data, 28),
                file_format: read_u32(data, 32),
                root_cell_offset: read_u32(data, 36),
                hive_bins_data_size: read_u32(data, 40),
                clustering_factor: read_u32(data, 44),
                file_name,
                reserved1: copy_range(data, 112, 508),
                checksum: read_u32(data, 508),
                reserved2: copy_range(data, 512, 4088),
                boot_type: read_u32(data, 4088),
                boot_recover: read_u32(data, 4092),
            },
        )
    }
}

} // verus!

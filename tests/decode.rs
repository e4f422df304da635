use regf::base_block::BaseBlock;
use regf::bin::{HiveBin, HiveBinHeader};
use regf::cell::Cell;
use regf::cell_type::CellType;
use regf::error::DecodeError;
use regf::reader::RegistryFile;

fn base_block_bytes(hive_bins_data_size: u32) -> Vec<u8> {
    let mut b = vec![0u8; 4096];
    b[0..4].copy_from_slice(b"regf");
    b[4..8].copy_from_slice(&7u32.to_le_bytes());
    b[8..12].copy_from_slice(&6u32.to_le_bytes());
    b[12..20].copy_from_slice(&0x0102_0304_0506_0708u64.to_le_bytes());
    b[20..24].copy_from_slice(&1u32.to_le_bytes());
    b[24..28].copy_from_slice(&5u32.to_le_bytes());
    b[36..40].copy_from_slice(&0x20u32.to_le_bytes());
    b[40..44].copy_from_slice(&hive_bins_data_size.to_le_bytes());
    b[44..48].copy_from_slice(&1u32.to_le_bytes());
    for (i, u) in "SYSTEM".encode_utf16().enumerate() {
        b[48 + 2 * i..50 + 2 * i].copy_from_slice(&u.to_le_bytes());
    }
    b[508..512].copy_from_slice(&0xdead_beefu32.to_le_bytes());
    b[4092..4096].copy_from_slice(&3u32.to_le_bytes());
    b
}

fn bin_bytes(offset: u32, size: u32, payload: &[u8]) -> Vec<u8> {
    let mut b = Vec::new();
    b.extend_from_slice(b"hbin");
    b.extend_from_slice(&offset.to_le_bytes());
    b.extend_from_slice(&size.to_le_bytes());
    b.extend_from_slice(&0u64.to_le_bytes());
    b.extend_from_slice(&0x1122u64.to_le_bytes());
    b.extend_from_slice(&9u32.to_le_bytes());
    b.extend_from_slice(payload);
    b
}

fn cell_bytes(size: i32, tag: &[u8; 2], fill: u8) -> Vec<u8> {
    let mut b = Vec::new();
    b.extend_from_slice(&size.to_le_bytes());
    b.extend_from_slice(tag);
    b.resize(size.unsigned_abs() as usize, fill);
    b
}

fn only_bin(payload: &[u8]) -> HiveBin {
    let bytes = bin_bytes(0, 32 + payload.len() as u32, payload);
    HiveBin::decode(&bytes, 0).unwrap()
}

#[test]
fn minimal_file_yields_one_empty_bin() {
    let mut data = base_block_bytes(32);
    data.extend(bin_bytes(0, 32, &[]));
    let mut reader = RegistryFile::new(data);
    let header = reader.read_header().unwrap();
    assert_eq!(header.hive_bins_data_size, 32);
    let mut bin = reader.next_bin().unwrap().unwrap();
    assert_eq!(bin.header().size, 32);
    assert!(bin.cells_data().is_empty());
    assert!(bin.next_cell().is_none());
    let (cells, err) = bin.read_cells();
    assert!(cells.is_empty());
    assert_eq!(err, None);
    assert!(reader.next_bin().is_none());
}

#[test]
fn truncated_cell_ends_bin_in_error() {
    let mut payload = Vec::new();
    payload.extend_from_slice(&(-16i32).to_le_bytes());
    payload.extend_from_slice(b"nk\0\0");
    let mut bin = only_bin(&payload);
    let first = bin.next_cell().unwrap();
    assert_eq!(first.unwrap_err(), DecodeError::Truncated { offset: 0, needed: 16 });
    assert!(bin.next_cell().is_none());
}

#[test]
fn unknown_kind_is_kept() {
    let bytes = cell_bytes(-16, b"xy", 0xab);
    let cell = Cell::decode(&bytes, 0).unwrap();
    assert_eq!(cell.cell_type, CellType::Unknown([b'x', b'y']));
    assert_eq!(cell.data, vec![0xabu8; 10]);
    assert_eq!(cell.size, -16);
    assert_eq!(cell.magnitude(), 16);
    assert!(cell.is_allocated());
}

#[test]
fn every_tag_has_one_kind() {
    let known: [(&[u8; 2], CellType); 8] = [
        (b"li", CellType::LeafIndex),
        (b"lf", CellType::LeafFast),
        (b"lh", CellType::LeafHash),
        (b"ri", CellType::RootIndex),
        (b"nk", CellType::NamedKey),
        (b"vk", CellType::ValueKey),
        (b"sk", CellType::SecurityKey),
        (b"db", CellType::DataBlock),
    ];
    for v in 0..=0xffffu32 {
        let tag = [(v & 0xff) as u8, (v >> 8) as u8];
        let kind = CellType::from_tag(tag);
        match known.iter().find(|(t, _)| **t == tag) {
            Some((_, k)) => assert_eq!(kind, *k),
            None => assert_eq!(kind, CellType::Unknown(tag)),
        }
        assert_eq!(kind, CellType::from_tag(tag));
    }
}

#[test]
fn cell_size_must_be_a_multiple_of_eight() {
    let mut bytes = cell_bytes(-16, b"nk", 0);
    bytes[0..4].copy_from_slice(&(-12i32).to_le_bytes());
    assert_eq!(
        Cell::decode(&bytes, 0).unwrap_err(),
        DecodeError::CellSize { offset: 0, raw_size: -12 }
    );
    bytes[0..4].copy_from_slice(&20i32.to_le_bytes());
    assert_eq!(
        Cell::decode(&bytes, 0).unwrap_err(),
        DecodeError::CellSize { offset: 0, raw_size: 20 }
    );
}

#[test]
fn cell_size_must_cover_its_header() {
    let mut bytes = cell_bytes(-16, b"nk", 0);
    bytes[0..4].copy_from_slice(&0i32.to_le_bytes());
    assert_eq!(
        Cell::decode(&bytes, 0).unwrap_err(),
        DecodeError::CellSize { offset: 0, raw_size: 0 }
    );
}

#[test]
fn free_cell_is_not_allocated() {
    let bytes = cell_bytes(24, b"vk", 1);
    let cell = Cell::decode(&bytes, 0).unwrap();
    assert_eq!(cell.cell_type, CellType::ValueKey);
    assert_eq!(cell.magnitude(), 24);
    assert!(!cell.is_allocated());
    assert_eq!(cell.data.len(), 18);
}

#[test]
fn largest_negative_size_is_rejected_when_short() {
    let mut bytes = cell_bytes(-16, b"nk", 0);
    bytes[0..4].copy_from_slice(&i32::MIN.to_le_bytes());
    assert_eq!(
        Cell::decode(&bytes, 0).unwrap_err(),
        DecodeError::Truncated { offset: 0, needed: 0x8000_0000 }
    );
}

#[test]
fn cell_header_needs_four_bytes() {
    let bytes = [0xf8u8, 0xff];
    assert_eq!(
        Cell::decode(&bytes, 0).unwrap_err(),
        DecodeError::Truncated { offset: 0, needed: 4 }
    );
}

#[test]
fn cells_fill_the_payload() {
    let mut payload = cell_bytes(-16, b"nk", 0x41);
    payload.extend(cell_bytes(16, b"sk", 0x42));
    payload.extend(cell_bytes(-8, b"lf", 0));
    let mut bin = only_bin(&payload);
    let (cells, err) = bin.read_cells();
    assert_eq!(err, None);
    assert_eq!(cells.len(), 3);
    assert_eq!(cells[0].cell_type, CellType::NamedKey);
    assert_eq!(cells[0].data, vec![0x41u8; 10]);
    assert_eq!(cells[1].cell_type, CellType::SecurityKey);
    assert_eq!(cells[2].cell_type, CellType::LeafFast);
    assert_eq!(cells[2].data, vec![0u8; 2]);
    let total: u32 = cells.iter().map(|c| c.magnitude()).sum();
    assert_eq!(total, bin.header().size - 32);
    assert!(bin.next_cell().is_none());
}

#[test]
fn overshooting_cell_stops_the_bin() {
    let mut payload = cell_bytes(-8, b"li", 0);
    payload.extend(cell_bytes(-8, b"ri", 0));
    payload[8..12].copy_from_slice(&(-24i32).to_le_bytes());
    let mut bin = only_bin(&payload);
    let (cells, err) = bin.read_cells();
    assert_eq!(cells.len(), 1);
    assert_eq!(cells[0].cell_type, CellType::LeafIndex);
    assert_eq!(err, Some(DecodeError::Truncated { offset: 8, needed: 24 }));
    assert!(bin.next_cell().is_none());
}

#[test]
fn trailing_bytes_too_short_for_a_cell() {
    let mut payload = cell_bytes(-8, b"db", 0);
    payload.extend_from_slice(&[0, 0]);
    let mut bin = only_bin(&payload);
    let (cells, err) = bin.read_cells();
    assert_eq!(cells.len(), 1);
    assert_eq!(err, Some(DecodeError::Truncated { offset: 8, needed: 4 }));
}

#[test]
fn bin_header_fields() {
    let bytes = bin_bytes(0x1000, 40, &cell_bytes(-8, b"vk", 0));
    let header = HiveBinHeader::decode(&bytes, 0).unwrap();
    assert_eq!(&header.signature, b"hbin");
    assert_eq!(header.offset, 0x1000);
    assert_eq!(header.size, 40);
    assert_eq!(header.reserved, 0);
    assert_eq!(header.timestamp, 0x1122);
    assert_eq!(header.spare, 9);
    assert_eq!(
        HiveBinHeader::decode(&bytes[..31], 0).unwrap_err(),
        DecodeError::Truncated { offset: 0, needed: 32 }
    );
}

#[test]
fn bin_smaller_than_its_header_is_rejected() {
    let bytes = bin_bytes(0, 16, &[]);
    assert_eq!(
        HiveBin::decode(&bytes, 0).unwrap_err(),
        DecodeError::BinSize { offset: 0, size: 16 }
    );
}

#[test]
fn bin_payload_cut_short_is_truncated() {
    let bytes = bin_bytes(0, 64, &[0u8; 8]);
    assert_eq!(
        HiveBin::decode(&bytes, 0).unwrap_err(),
        DecodeError::Truncated { offset: 32, needed: 32 }
    );
}

#[test]
fn base_block_fields() {
    let data = base_block_bytes(0x2000);
    let b = BaseBlock::decode(&data).unwrap();
    assert_eq!(&b.signature, b"regf");
    assert_eq!(b.primary_sequence_number, 7);
    assert_eq!(b.secondary_sequence_number, 6);
    assert_eq!(b.last_written_timestamp, 0x0102_0304_0506_0708);
    assert_eq!(b.major_version, 1);
    assert_eq!(b.minor_version, 5);
    assert_eq!(b.root_cell_offset, 0x20);
    assert_eq!(b.hive_bins_data_size, 0x2000);
    assert_eq!(b.clustering_factor, 1);
    assert_eq!(b.file_name.len(), 32);
    assert_eq!(String::from_utf16(&b.file_name[..6]).unwrap(), "SYSTEM");
    assert_eq!(b.file_name[6], 0);
    assert_eq!(b.reserved1.len(), 396);
    assert_eq!(b.checksum, 0xdead_beef);
    assert_eq!(b.reserved2.len(), 3576);
    assert_eq!(b.boot_type, 0);
    assert_eq!(b.boot_recover, 3);
}

#[test]
fn short_base_block_is_truncated() {
    let data = base_block_bytes(0);
    assert_eq!(
        BaseBlock::decode(&data[..4095]).unwrap_err(),
        DecodeError::Truncated { offset: 0, needed: 4096 }
    );
    let mut reader = RegistryFile::new(data[..100].to_vec());
    assert!(reader.read_header().is_err());
    assert!(reader.next_bin().is_none());
}

#[test]
fn empty_hive_has_no_bins() {
    let mut data = base_block_bytes(0);
    data.extend(bin_bytes(0, 32, &[]));
    let mut reader = RegistryFile::new(data);
    reader.read_header().unwrap();
    assert!(reader.next_bin().is_none());
}

#[test]
fn bins_stop_at_declared_total() {
    let mut data = base_block_bytes(80);
    data.extend(bin_bytes(0, 48, &cell_bytes(-16, b"nk", 0)));
    data.extend(bin_bytes(48, 40, &cell_bytes(8, b"sk", 0)));
    data.extend(bin_bytes(88, 40, &cell_bytes(8, b"vk", 0)));
    let mut reader = RegistryFile::new(data);
    reader.read_header().unwrap();
    let first = reader.next_bin().unwrap().unwrap();
    assert_eq!(first.header().offset, 0);
    let second = reader.next_bin().unwrap().unwrap();
    assert_eq!(second.header().offset, 48);
    assert!(reader.next_bin().is_none());
}

#[test]
fn bin_error_is_reported_with_file_offset() {
    let mut data = base_block_bytes(64);
    data.extend(bin_bytes(0, 32, &[]));
    data.extend(bin_bytes(32, 8, &[]));
    let mut reader = RegistryFile::new(data);
    reader.read_header().unwrap();
    assert!(reader.next_bin().unwrap().is_ok());
    let err = reader.next_bin().unwrap().unwrap_err();
    assert_eq!(err, DecodeError::BinSize { offset: 4096 + 32, size: 8 });
    assert!(reader.next_bin().is_none());
}

#[test]
fn decoding_twice_gives_the_same_output() {
    let mut data = base_block_bytes(48);
    let mut payload = cell_bytes(-8, b"lh", 0);
    payload.extend(cell_bytes(8, b"zz", 0));
    data.extend(bin_bytes(0, 48, &payload));
    let run = |data: Vec<u8>| {
        let mut reader = RegistryFile::new(data);
        let header = reader.read_header().unwrap();
        let mut out = Vec::new();
        while let Some(bin) = reader.next_bin() {
            let mut bin = bin.unwrap();
            let (cells, err) = bin.read_cells();
            out.push((bin.header(), format!("{:?} {:?}", cells, err)));
        }
        (format!("{:?}", header), out)
    };
    assert_eq!(run(data.clone()), run(data));
}

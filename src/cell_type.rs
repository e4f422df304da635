use vstd::prelude::*;

verus! {

/// The role of a cell, read from the two bytes that follow its size field.
#[derive(Debug, Clone, Copy, PartialEq, Eq)]
pub enum CellType {
    /// `li`: a list of subkeys.
    LeafIndex,
    /// `lf`: a list of subkeys with name hints.
    LeafFast,
    /// `lh`: a list of subkeys with name hashes.
    LeafHash,
    /// `ri`: a list of subkey lists.
    RootIndex,
    /// `nk`: a key node.
    NamedKey,
    /// `vk`: a key value.
    ValueKey,
    /// `sk`: a security descriptor.
    SecurityKey,
    /// `db`: a list of data segments.
    DataBlock,
    /// Any other tag, kept as it was read.
    Unknown([u8; 2]),
}

/// The kind that the tag bytes `b0 b1` stand for.
pub open spec fn kind_of(b0: u8, b1: u8) -> CellType {
    if b0 == 0x6c && b1 == 0x69 {
        CellType::LeafIndex
    } else if b0 == 0x6c && b1 == 0x66 {
        CellType::LeafFast
    } else if b0 == 0x6c && b1 == 0x68 {
        CellType::LeafHash
    } else if b0 == 0x72 && b1 == 0x69 {
        CellType::RootIndex
    } else if b0 == 0x6e && b1 == 0x6b {
        CellType::NamedKey
    } else if b0 == 0x76 && b1 == 0x6b {
        CellType::ValueKey
    } else if b0 == 0x73 && b1 == 0x6b {
        CellType::SecurityKey
    } else if b0 == 0x64 && b1 == 0x62 {
        CellType::DataBlock
    } else {
        CellType::Unknown([b0, b1])
    }
}

impl CellType {
    /// Classifies a two-byte tag; every tag has a kind.
    pub fn from_tag(tag: [u8; 2]) -> (r: CellType)
        ensures
            r == kind_of(tag[0], tag[1]),
    {
        let b0 = tag[0];
        let b1 = tag[1];
        if b0 == 0x6c && b1 == 0x69 {
            CellType::LeafIndex
        } else if b0 == 0x6c && b1 == 0x66 {
            CellType::LeafFast
        } else if b0 == 0x6c && b1 == 0x68 {
            CellType::LeafHash
        } else if b0 == 0x72 && b1 == 0x69 {
            CellType::RootIndex
        } else if b0 == 0x6e && b1 == 0x6b {
            CellType::NamedKey
        } else if b0 == 0x76 && b1 == 0x6b {
            CellType::ValueKey
        } else if b0 == 0x73 && b1 == 0x6b {
            CellType::SecurityKey
        } else if b0 == 0x64 && b1 == 0x62 {
            CellType::DataBlock
        } else {
            CellType::Unknown([b0, b1])
        }
    }
}

proof fn probe(tag: [u8; 2]) {
    assert([tag[0], tag[1]] == tag);
}

} // verus!

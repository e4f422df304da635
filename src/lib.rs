//! Decoding of the on-disk layout of registry hive files: the base block, the
//! bins that follow it, and the cells inside each bin.
use vstd::prelude::*;

pub mod base_block;
pub mod bin;
pub mod bytes;
pub mod cell;
pub mod cell_type;
pub mod error;
pub mod laws;
pub mod reader;

verus! {

} // verus!

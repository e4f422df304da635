use vstd::prelude::*;

use crate::base_block::{BaseBlock, BASE_BLOCK_LEN};
use crate::bin::{bin_at, bin_result_is, HiveBin};
use crate::error::DecodeError;

verus! {

/// Reads a hive front to back: the base block once, then bins until the bin
/// sizes read add up to the size that the base block declares.
#[derive(Debug)]
pub struct RegistryFile {
    data: Vec<u8>,
    pos: usize,
    total_hbins_size: u32,
    current_hbins_size: u64,
    failed: bool,
}

/// The state of a reader, as mathematical values.
pub struct RegistryFileView {
    /// The whole file.
    pub data: Seq<u8>,
    /// Where the next bin starts.
    pub pos: int,
    /// The size of the bin data that the base block declares.
    pub total: int,
    /// The sizes of the bins read so far, added up.
    pub consumed: int,
    /// The base block or a bin failed to decode; no further bin is read.
    pub failed: bool,
}

impl RegistryFileView {
    /// No bin is left to read.
    pub open spec fn done(self) -> bool {
        self.failed || self.consumed >= self.total
    }

    /// The state after the base block `b` was read from `data`.
    pub open spec fn after_header(data: Seq<u8>, b: BaseBlock) -> RegistryFileView {
        RegistryFileView {
            data,
            pos: 4096,
            total: b.hive_bins_data_size as int,
            consumed: 0,
            failed: false,
        }
    }
}

impl RegistryFileView {
    /// The state after the base block failed to decode.
    pub open spec fn after_failed_header(data: Seq<u8>) -> RegistryFileView {
        RegistryFileView { data, pos: 0, total: 0, consumed: 0, failed: true }
    }

    /// The state after a bin of `size` bytes was read.
    pub open spec fn advanced(self, size: int) -> RegistryFileView {
        RegistryFileView { pos: self.pos + size, consumed: self.consumed + size, ..self }
    }

    /// The state after a bin failed to decode.
    pub open spec fn stopped(self) -> RegistryFileView {
        RegistryFileView { failed: true, ..self }
    }
}

impl View for RegistryFile {
    type V = RegistryFileView;

    closed spec fn view(&self) -> RegistryFileView {
        RegistryFileView {
            data: self.data@,
            pos: self.pos as int,
            total: self.total_hbins_size as int,
            consumed: self.current_hbins_size as int,
            failed: self.failed,
        }
    }
}

impl RegistryFile {
    #[verifier::type_invariant]
    spec fn inv(&self) -> bool {
        &&& self.pos <= self.data@.len()
        &&& self.current_hbins_size <= 2 * 0xffff_ffffu64
    }

    /// A reader over the bytes of a whole hive file; nothing is read yet.
    pub fn new(data: Vec<u8>) -> (r: RegistryFile)
        ensures
            r@ == (RegistryFileView { data: data@, pos: 0, total: 0, consumed: 0, failed: false }),
    {
        RegistryFile { data, pos: 0, total_hbins_size: 0, current_hbins_size: 0, failed: false }
    }

    /// Decodes the base block at the start of the file and places the reader
    /// at the first bin. On failure no bin is read afterwards.
    pub fn read_header(&mut self) -> (r: Result<BaseBlock, DecodeError>)
        ensures
            final(self)@.data == old(self)@.data,
            r is Err <==> old(self)@.data.len() < 4096,
            r matches Ok(b) ==> (b.decoded_from(old(self)@.data) && final(self)@
                == RegistryFileView::after_header(old(self)@.data, b)),
            r is Err ==> (r == Err::<BaseBlock, DecodeError>(
                DecodeError::Truncated { offset: 0, needed: 4096 },
            ) && final(self)@ == RegistryFileView::after_failed_header(old(self)@.data)),
    {
        proof {
            use_type_invariant(&*self);
        }
        let r = BaseBlock::decode(self.data.as_slice());
        match r {
            Ok(b) => {
                self.pos = BASE_BLOCK_LEN as usize;
                self.total_hbins_size = b.hive_bins_data_size;
                self.current_hbins_size = 0;
                self.failed = false;
                Ok(b)
            },
            Err(e) => {
                self.pos = 0;
                self.total_hbins_size = 0;
                self.current_hbins_size = 0;
                self.failed = true;
                Err(e)
            },
        }
    }

    /// Decodes the next bin, while the bin sizes read so far add up to less
    /// than the declared total. The last bin may go past that total; its own
    /// size is trusted. After a bin fails to decode, no further bin is read.
    pub fn next_bin(&mut self) -> (r: Option<Result<HiveBin, DecodeError>>)
        ensures
            final(self)@.data == old(self)@.data,
            final(self)@.total == old(self)@.total,
            old(self)@.done() ==> r is None && final(self)@ == old(self)@,
            !old(self)@.done() ==> r is Some && bin_result_is(
                r->Some_0,
                bin_at(old(self)@.data, old(self)@.pos),
            ),
            r matches Some(Ok(b)) ==> (b@.wf() && final(self)@ == old(self)@.advanced(
                b@.header.size as int,
            )),
            r matches Some(Err(_)) ==> (final(self)@ == old(self)@.stopped()),
    {
        proof {
            use_type_invariant(&*self);
        }
        if self.failed || self.current_hbins_size >= self.total_hbins_size as u64 {
            return None;
        }
        let _len = self.data.len();
        match HiveBin::decode(self.data.as_slice(), self.pos) {
            Ok(bin) => {
                let size = bin.header().size;
                self.pos = self.pos + size as usize;
                self.current_hbins_size = self.current_hbins_size + size as u64;
                Some(Ok(bin))
            },
            Err(e) => {
                self.failed = true;
                Some(Err(e))
            },
        }
    }
}

} // verus!

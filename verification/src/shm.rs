//! The shared-memory data plane: a fixed-size region handed across the
//! process boundary once, then used to move bulk audio sample data. For a
//! given callback the region is partitioned into an input sub-range and an
//! output sub-range sized by the frame counts; a working set larger than
//! the region is an integrity violation and is refused loudly.

use vstd::prelude::*;

use crate::SHM_AREA_SIZE;

verus! {

/// The contents of `s` once `bytes` are written at `offset`.
pub open spec fn spec_write_at(s: Seq<u8>, offset: int, bytes: Seq<u8>) -> Seq<u8>
    recommends
        0 <= offset,
        offset + bytes.len() <= s.len(),
{
    s.subrange(0, offset) + bytes + s.subrange(offset + bytes.len(), s.len() as int)
}

/// The fixed-size mapped region. Outside this model the same bytes are
/// visible to the peer process; the request/response turn-taking protocol
/// serializes who may touch them, so a write is observed whole by the next
/// reader.
pub struct SharedMem {
    data: Vec<u8>,
}

impl SharedMem {
    /// The bytes of the region.
    pub closed spec fn view(&self) -> Seq<u8> {
        self.data@
    }

    /// The region always spans exactly the fixed area size.
    pub closed spec fn well_formed(&self) -> bool {
        self.data@.len() == SHM_AREA_SIZE
    }

    /// A fresh region, zero-filled.
    pub fn new() -> (r: SharedMem)
        ensures
            r.well_formed(),
            r.view() =~= Seq::new(SHM_AREA_SIZE as nat, |i: int| 0u8),
    {
        let mut data: Vec<u8> = Vec::new();
        let mut i: usize = 0;
        while i < SHM_AREA_SIZE
            invariant
                i <= SHM_AREA_SIZE,
                data@ =~= Seq::new(i as nat, |j: int| 0u8),
            decreases SHM_AREA_SIZE - i,
        {
            data.push(0u8);
            i = i + 1;
        }
        SharedMem { data }
    }

    /// Writes `bytes` into the region starting at `offset`; every byte
    /// outside the written range keeps its value.
    pub fn write_at(&mut self, offset: usize, bytes: &Vec<u8>)
        requires
            old(self).well_formed(),
            offset + bytes@.len() <= SHM_AREA_SIZE,
        ensures
            final(self).well_formed(),
            final(self).view() =~= spec_write_at(old(self).view(), offset as int, bytes@),
    {
        let mut j: usize = 0;
        while j < bytes.len()
            invariant
                j <= bytes@.len(),
                offset + bytes@.len() <= SHM_AREA_SIZE,
                self.data@.len() == SHM_AREA_SIZE,
                forall|k: int| 0 <= k < offset ==> self.data@[k] == old(self).view()[k],
                forall|k: int|
                    offset <= k < offset + j ==> self.data@[k] == bytes@[k - offset],
                forall|k: int|
                    offset + j <= k < SHM_AREA_SIZE ==> self.data@[k] == old(self).view()[k],
            decreases bytes@.len() - j,
        {
            self.data.set(offset + j, bytes[j]);
            j = j + 1;
        }
        proof {
            assert(self.data@ =~= spec_write_at(old(self).view(), offset as int, bytes@));
        }
    }

    /// Copies `len` bytes starting at `offset` out of the region.
    pub fn read_at(&self, offset: usize, len: usize) -> (r: Vec<u8>)
        requires
            self.well_formed(),
            offset + len <= SHM_AREA_SIZE,
        ensures
            r@ =~= self.view().subrange(offset as int, offset + len),
    {
        let mut out: Vec<u8> = Vec::new();
        let mut j: usize = 0;
        while j < len
            invariant
                j <= len,
                offset + len <= SHM_AREA_SIZE,
                self.data@.len() == SHM_AREA_SIZE,
                out@ =~= self.data@.subrange(offset as int, offset + j),
            decreases len - j,
        {
            out.push(self.data[offset + j]);
            j = j + 1;
        }
        out
    }
}

/// How one data callback partitions the region: the input sub-range spans
/// `[0, input_bytes)` and the output sub-range the `output_bytes` bytes
/// after it.
#[derive(Clone, Copy, Debug, PartialEq, Eq, Structural)]
pub struct DataRanges {
    pub input_bytes: usize,
    pub output_bytes: usize,
}

/// Computes the byte ranges a data callback with the given frame count and
/// per-direction frame sizes occupies, refusing a working set that does
/// not fit the fixed region.
pub fn data_ranges(nframes: usize, input_frame_size: usize, output_frame_size: usize) -> (r: Option<
    DataRanges,
>)
    ensures
        match r {
            Some(ranges) => {
                &&& ranges.input_bytes == nframes * input_frame_size
                &&& ranges.output_bytes == nframes * output_frame_size
                &&& ranges.input_bytes + ranges.output_bytes <= SHM_AREA_SIZE
            },
            None => nframes * input_frame_size + nframes * output_frame_size > SHM_AREA_SIZE,
        },
{
    let input_bytes = match nframes.checked_mul(input_frame_size) {
        Some(v) => v,
        None => {
            proof {
                vstd::arithmetic::mul::lemma_mul_increases(input_frame_size as int, nframes as int);
                vstd::arithmetic::mul::lemma_mul_is_commutative(
                    nframes as int,
                    input_frame_size as int,
                );
            }
            return None;
        },
    };
    let output_bytes = match nframes.checked_mul(output_frame_size) {
        Some(v) => v,
        None => {
            proof {
                vstd::arithmetic::mul::lemma_mul_increases(output_frame_size as int, nframes as int);
                vstd::arithmetic::mul::lemma_mul_is_commutative(
                    nframes as int,
                    output_frame_size as int,
                );
            }
            return None;
        },
    };
    let total = match input_bytes.checked_add(output_bytes) {
        Some(v) => v,
        None => {
            return None;
        },
    };
    if total > SHM_AREA_SIZE {
        None
    } else {
        Some(DataRanges { input_bytes, output_bytes })
    }
}

/// Round trip across the region: a pattern written into a sub-range is
/// read back whole, with no byte dropped or reordered.
pub proof fn lemma_shm_roundtrip(s: Seq<u8>, offset: int, pattern: Seq<u8>)
    requires
        0 <= offset,
        offset + pattern.len() <= s.len(),
    ensures
        spec_write_at(s, offset, pattern).subrange(offset, offset + pattern.len()) =~= pattern,
        spec_write_at(s, offset, pattern).len() == s.len(),
{
}

/// Bytes outside a written sub-range are untouched: writing the output
/// sub-range preserves every byte of the input sub-range before it.
pub proof fn lemma_write_preserves_before(s: Seq<u8>, offset: int, pattern: Seq<u8>)
    requires
        0 <= offset,
        offset + pattern.len() <= s.len(),
    ensures
        spec_write_at(s, offset, pattern).subrange(0, offset) =~= s.subrange(0, offset),
{
}

} // verus!

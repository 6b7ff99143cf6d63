//! The memory-mapped implementation of the exact-read capability: a reader
//! over an already-established, immutable mapping, satisfying reads by a
//! bounds check followed by a direct memory copy.

use vstd::prelude::*;

use crate::read::{read_bytes, ExactRandomRead, ReadError};

verus! {

#[verifier::external_type_specification]
#[verifier::external_body]
pub struct ExMmap(memmap::Mmap);

/// The bytes of a mapped region. The mapping is immutable for its whole
/// lifetime, so the sequence is fixed for a given map.
pub uninterp spec fn mapped_bytes(m: memmap::Mmap) -> Seq<u8>;

/// Relies on memmap::Mmap's Deref to `[u8]`: the whole mapped range as a
/// contiguous slice of bytes.
#[verifier::external_body]
fn mapped_slice(m: &memmap::Mmap) -> (r: &[u8])
    ensures
        r@ == mapped_bytes(*m),
{
    &m[..]
}

/// Treats a pre-established, immutable memory mapping as a flat array of
/// bytes. It holds only a borrowed reference: the mapping manager owns the
/// map and keeps it valid for the reader's lifetime. The reader itself is
/// stateless and issues no I/O on the read path.
pub struct MappedRegionReader<'a> {
    region: &'a memmap::Mmap,
}

impl<'a> MappedRegionReader<'a> {
    /// Wrap an already-established mapping. No I/O happens here.
    pub fn new(region: &'a memmap::Mmap) -> (r: Self)
        ensures
            r.region() == mapped_bytes(*region),
    {
        MappedRegionReader { region }
    }

    /// The fixed length of the region.
    pub fn len(&self) -> (r: usize)
        ensures
            r == self.region().len(),
    {
        mapped_slice(self.region).len()
    }
}

impl<'a> ExactRandomRead for MappedRegionReader<'a> {
    closed spec fn region(&self) -> Seq<u8> {
        mapped_bytes(*self.region)
    }

    fn read_exact_at(&self, buf: &mut Vec<u8>, offset: u64) -> (r: Result<(), ReadError>) {
        let n = buf.len();
        if n == 0 {
            // Deliberate fast path: a zero-length read succeeds even when
            // the offset lies past the end of the region.
            return Ok(());
        }
        let src = mapped_slice(self.region);
        let len = src.len();
        // The check precedes the copy, so a failed read leaves `buf` as it
        // was. Comparing in u64 keeps `offset + n` from overflowing.
        if offset > len as u64 || n as u64 > len as u64 - offset {
            return Err(ReadError::UnexpectedEof);
        }
        let start = offset as usize;
        let mut i: usize = 0;
        while i < n
            invariant
                n == buf@.len(),
                n == old(buf)@.len(),
                i <= n,
                src@ == self.region(),
                start == offset,
                start + n <= src@.len(),
                src@.len() <= usize::MAX,
                forall|j: int| 0 <= j < i ==> buf@[j] == src@[start + j],
            decreases n - i,
        {
            let b = src[start + i];
            buf.set(i, b);
            i += 1;
        }
        proof {
            assert(buf@ =~= read_bytes(self.region(), offset, n as nat));
        }
        Ok(())
    }
}

} // verus!

//! The exact-read capability: its satisfiability condition, the bytes a
//! satisfiable read yields, the single error kind, and the capability trait.

use vstd::prelude::*;

verus! {

/// Whether a request for `len` bytes at byte position `offset` can be
/// satisfied by a region of `region.len()` bytes: a zero-length read always
/// can, regardless of the offset; any other read only when its whole range
/// lies inside the region.
pub open spec fn read_ok(region: Seq<u8>, offset: u64, len: nat) -> bool {
    len == 0 || offset + len <= region.len()
}

/// The bytes a satisfiable read yields: `region[offset..offset + len)`.
pub open spec fn read_bytes(region: Seq<u8>, offset: u64, len: nat) -> Seq<u8>
    recommends
        read_ok(region, offset, len),
{
    if len == 0 {
        Seq::empty()
    } else {
        region.subrange(offset as int, offset + len)
    }
}

/// The one way a read can fail: the requested range reaches past the end of
/// the region.
#[derive(Clone, Copy, Debug, PartialEq, Eq, Structural)]
pub enum ReadError {
    UnexpectedEof,
}

/// Exact, bounds-checked random-access reads over an immutable byte region.
///
/// A read either fills the destination buffer completely from the region or
/// leaves it untouched and reports an error: there is no partial outcome.
pub trait ExactRandomRead {
    /// The bytes of the region this reader serves.
    spec fn region(&self) -> Seq<u8>;

    /// Overwrite `buf` with the `buf.len()` region bytes starting at
    /// `offset`, or fail without modifying `buf`.
    ///
    /// A zero-length read succeeds whatever the offset, even one past the end
    /// of the region; any other read succeeds exactly when its range lies
    /// inside the region, and otherwise fails with a boundary-violation
    /// error, leaving the buffer's prior contents intact.
    fn read_exact_at(&self, buf: &mut Vec<u8>, offset: u64) -> (r: Result<(), ReadError>)
        ensures
            final(buf)@.len() == old(buf)@.len(),
            r is Ok <==> read_ok(self.region(), offset, old(buf)@.len()),
            r is Ok ==> final(buf)@ == read_bytes(self.region(), offset, old(buf)@.len()),
            r is Err ==> final(buf)@ == old(buf)@,
            r matches Err(e) ==> e == ReadError::UnexpectedEof,
    ;
}

/// Reads are idempotent: two reads with identical offset and length against
/// the same immutable region yield byte-identical results.
pub proof fn lemma_read_idempotent(region: Seq<u8>, offset: u64, first: Seq<u8>, second: Seq<u8>)
    requires
        first.len() == second.len(),
        read_ok(region, offset, first.len()),
        first == read_bytes(region, offset, first.len()),
        second == read_bytes(region, offset, second.len()),
    ensures
        first == second,
{
}

} // verus!

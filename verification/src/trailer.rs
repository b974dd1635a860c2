use vstd::prelude::*;

use crate::errors::MetadataError;

verus! {

/// Number of bytes of the trailing length field.
pub const TRAILER_LENGTH_FIELD_LEN: usize = 2;

/// The trailer length a buffer declares: its final two bytes read as a
/// big-endian 16-bit unsigned integer.
pub open spec fn spec_trailer_len(s: Seq<u8>) -> int
    recommends
        s.len() >= 2,
{
    (s[s.len() - 2] as int) * 256 + (s[s.len() - 1] as int)
}

/// The byte range `[start, end)` of the trailer inside the input buffer,
/// together with the length the buffer declared for it.
#[derive(Clone, Copy, Debug, PartialEq, Eq, Structural)]
pub struct RawTrailerView {
    pub start: usize,
    pub end: usize,
    pub declared_len: usize,
}

impl RawTrailerView {
    /// The range is well formed for a buffer of `buf_len` bytes: it spans
    /// exactly the declared length and ends right before the length field.
    pub open spec fn wf(self, buf_len: int) -> bool {
        &&& self.start <= self.end
        &&& self.end - self.start == self.declared_len
        &&& self.end + TRAILER_LENGTH_FIELD_LEN == buf_len
    }
}

/// Locates the trailer: the final `N` bytes before the 2-byte length
/// field, where `N` is the value of that field. The bound checks never
/// read or subtract out of range.
pub fn locate_trailer(bytes: &[u8]) -> (r: Result<RawTrailerView, MetadataError>)
    ensures
        bytes@.len() < 2 ==> r == Err::<RawTrailerView, MetadataError>(
            MetadataError::InsufficientData,
        ),
        bytes@.len() >= 2 && spec_trailer_len(bytes@) + 2 > bytes@.len() ==> r == Err::<
            RawTrailerView,
            MetadataError,
        >(MetadataError::TrailerOverrun),
        bytes@.len() >= 2 && spec_trailer_len(bytes@) + 2 <= bytes@.len() ==> (r matches Ok(t)
            && t.declared_len == spec_trailer_len(bytes@) && t.end == bytes@.len() - 2 && t.start
            == bytes@.len() - 2 - spec_trailer_len(bytes@) && t.wf(bytes@.len() as int)),
{
    let len = bytes.len();
    if len < TRAILER_LENGTH_FIELD_LEN {
        return Err(MetadataError::InsufficientData);
    }
    let declared: usize = (bytes[len - 2] as usize) * 256 + (bytes[len - 1] as usize);
    if declared > len - TRAILER_LENGTH_FIELD_LEN {
        return Err(MetadataError::TrailerOverrun);
    }
    let end = len - TRAILER_LENGTH_FIELD_LEN;
    Ok(RawTrailerView { start: end - declared, end, declared_len: declared })
}

} // verus!

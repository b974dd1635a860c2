use vstd::prelude::*;

use crate::cbor::SpecFields;
use crate::encode::{base58_of, spec_hex_digit, spec_hex_of};
use crate::errors::MetadataError;
use crate::metadata::{spec_assemble, spec_decode, spec_digest_of, SpecDigest, SpecMetadata};
use crate::trailer::spec_trailer_len;

verus! {

/// Decoding any buffer shorter than the trailing length field fails
/// with `InsufficientData`.
pub proof fn lemma_insufficient_data(s: Seq<u8>)
    requires
        s.len() < 2,
    ensures
        spec_decode(s) == Err::<SpecMetadata, MetadataError>(MetadataError::InsufficientData),
{
}

/// Whenever the declared trailer length exceeds what the buffer can
/// hold, decoding fails with `TrailerOverrun`: the bound is checked
/// before any byte of the trailer is read.
pub proof fn lemma_trailer_overrun(s: Seq<u8>)
    requires
        s.len() >= 2,
        spec_trailer_len(s) + 2 > s.len(),
    ensures
        spec_decode(s) == Err::<SpecMetadata, MetadataError>(MetadataError::TrailerOverrun),
{
}

/// An IPFS digest always wins over any Swarm digest, whatever the other
/// fields hold.
pub proof fn lemma_ipfs_precedence(f: SpecFields, x: Seq<u8>)
    requires
        f.ipfs == Some(x),
    ensures
        spec_digest_of(f) == Some(SpecDigest::Ipfs(base58_of(x))),
{
}

/// Distinct values below 16 have distinct hexadecimal digits.
proof fn lemma_hex_digit_injective(x: int, y: int)
    requires
        0 <= x < 16,
        0 <= y < 16,
        spec_hex_digit(x) == spec_hex_digit(y),
    ensures
        x == y,
{
}

/// The hexadecimal encoding is twice as long as the encoded bytes.
pub proof fn lemma_hex_of_len(b: Seq<u8>)
    ensures
        spec_hex_of(b).len() == 2 * b.len(),
    decreases b.len(),
{
    if b.len() > 0 {
        lemma_hex_of_len(b.drop_last());
    }
}

/// The lowercase-hexadecimal encoding is injective: byte strings with
/// the same encoding are the same.
pub proof fn lemma_hex_of_injective(a: Seq<u8>, b: Seq<u8>)
    requires
        spec_hex_of(a) == spec_hex_of(b),
    ensures
        a == b,
    decreases a.len(),
{
    lemma_hex_of_len(a);
    lemma_hex_of_len(b);
    if a.len() == 0 {
        assert(a =~= b);
    } else {
        let n = a.len() as int;
        let ha = spec_hex_of(a.drop_last());
        let hb = spec_hex_of(b.drop_last());
        lemma_hex_of_len(a.drop_last());
        lemma_hex_of_len(b.drop_last());
        assert(spec_hex_of(a)[2 * n - 2] == spec_hex_digit(a.last() as int / 16));
        assert(spec_hex_of(a)[2 * n - 1] == spec_hex_digit(a.last() as int % 16));
        assert(spec_hex_of(b)[2 * n - 2] == spec_hex_digit(b.last() as int / 16));
        assert(spec_hex_of(b)[2 * n - 1] == spec_hex_digit(b.last() as int % 16));
        lemma_hex_digit_injective(a.last() as int / 16, b.last() as int / 16);
        lemma_hex_digit_injective(a.last() as int % 16, b.last() as int % 16);
        assert(a.last() == b.last());
        assert forall|i: int| 0 <= i < 2 * n - 2 implies ha[i] == hb[i] by {
            assert(spec_hex_of(a)[i] == ha[i]);
            assert(spec_hex_of(b)[i] == hb[i]);
        }
        assert(ha =~= hb);
        lemma_hex_of_injective(a.drop_last(), b.drop_last());
        assert forall|i: int| 0 <= i < n implies a[i] == b[i] by {
            if i < n - 1 {
                assert(a.drop_last()[i] == a[i]);
                assert(b.drop_last()[i] == b[i]);
            } else {
                assert(a[i] == a.last());
                assert(b[i] == b.last());
            }
        }
        assert(a =~= b);
    }
}

/// When no IPFS digest is present but both Swarm digests are, the v1
/// digest wins: the result renders v1 and, the encoding being
/// injective, never renders a distinct v0 digest.
pub proof fn lemma_swarm_v1_precedence(f: SpecFields, x: Seq<u8>, y: Seq<u8>)
    requires
        f.ipfs is None,
        f.bzzr0 == Some(x),
        f.bzzr1 == Some(y),
        x != y,
    ensures
        spec_digest_of(f) == Some(SpecDigest::Swarm(spec_hex_of(y))),
        spec_digest_of(f) != Some(SpecDigest::Swarm(spec_hex_of(x))),
{
    if spec_hex_of(x) == spec_hex_of(y) {
        lemma_hex_of_injective(x, y);
    }
}

/// A version field of any length other than three makes normalization
/// fail with `InvalidVersionLength`, whatever the other fields hold.
pub proof fn lemma_version_length(f: SpecFields, b: Seq<u8>)
    requires
        f.solc == Some(b),
        b.len() != 3,
    ensures
        spec_assemble(f) == Err::<SpecMetadata, MetadataError>(MetadataError::InvalidVersionLength),
{
}

} // verus!

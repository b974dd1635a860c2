use sha3::Digest;
use vstd::prelude::*;
use vstd::slice::{slice_subrange, slice_to_vec};

verus! {

/// Number of bytes of an Ethereum address.
pub const ETHEREUM_ADDRESS_LEN: usize = 20;

/// What Keccak-256 returns for a byte string: a 32-byte digest that is
/// a function of the input bytes alone.
pub uninterp spec fn keccak256_of(b: Seq<u8>) -> Seq<u8>;

/// Relies on sha3::Keccak256: a 32-byte digest determined by the input
/// bytes alone.
#[verifier::external_body]
fn keccak256(bytes: &[u8]) -> (r: Vec<u8>)
    ensures
        r@ == keccak256_of(bytes@),
        r@.len() == 32,
{
    sha3::Keccak256::digest(bytes).to_vec()
}

/// The Ethereum address that belongs to an uncompressed public key
/// (its 64 bytes without the compression-status prefix): the last 20
/// bytes of the key's Keccak-256 digest.
pub fn ethereum_address(public_key: &[u8]) -> (r: Vec<u8>)
    ensures
        r@ == keccak256_of(public_key@).subrange(12, 32),
        r@.len() == ETHEREUM_ADDRESS_LEN as int,
{
    let digest = keccak256(public_key);
    slice_to_vec(slice_subrange(digest.as_slice(), 12, 32))
}

} // verus!

//! The two digests that `OP_HASH160` chains, computed by the `sha2` and
//! `ripemd` crates.

use ripemd::Digest;
use ripemd::Ripemd160;
use sha2::Sha256;
use vstd::prelude::*;

verus! {

// The SHA-256 digest of a byte string.
pub uninterp spec fn sha256_of(data: Seq<u8>) -> Seq<u8>;

// The RIPEMD-160 digest of a byte string.
pub uninterp spec fn ripemd160_of(data: Seq<u8>) -> Seq<u8>;

/// Relies on `sha2::Sha256::digest` (the `Digest` trait of the `digest`
/// crate): a 32-byte digest that depends on the input bytes alone.
#[verifier::external_body]
pub(crate) fn sha256(data: &Vec<u8>) -> (r: Vec<u8>)
    ensures
        r@ == sha256_of(data@),
        r@.len() == 32,
{
    Sha256::digest(data.as_slice()).to_vec()
}

/// Relies on `ripemd::Ripemd160::digest` (the `Digest` trait of the `digest`
/// crate): a 20-byte digest that depends on the input bytes alone.
#[verifier::external_body]
pub(crate) fn ripemd160(data: &Vec<u8>) -> (r: Vec<u8>)
    ensures
        r@ == ripemd160_of(data@),
        r@.len() == 20,
{
    Ripemd160::digest(data.as_slice()).to_vec()
}

} // verus!

//! The hash that turns a transaction's encoding into its identifier.

use vstd::prelude::*;
use frame_support::{Blake2_128, StorageHasher};
use crate::codec::TxId;

verus! {

/// The 16-byte BLAKE2b digest of `data`, unkeyed.
pub uninterp spec fn blake2_128_digest(data: Seq<u8>) -> Seq<u8>;

/// Calls `frame_support::Blake2_128::hash`, which hands the bytes to
/// `sp_io::hashing::blake2_128`. Trusted: the result depends on the bytes of
/// `data` alone; it is given the name `blake2_128_digest`.
#[verifier::external_body]
pub(crate) fn blake2_128(data: &Vec<u8>) -> (digest: TxId)
    ensures
        digest@ == blake2_128_digest(data@),
{
    Blake2_128::hash(data.as_slice())
}

} // verus!

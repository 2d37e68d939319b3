//! The SCALE byte encodings that enter a transaction identifier.

use vstd::prelude::*;

verus! {

/// A transaction identifier: a 128-bit digest.
pub type TxId = [u8; 16];

/// The `width` low-order bytes of `value`, least significant byte first.
pub open spec fn le_bytes(value: nat, width: nat) -> Seq<u8>
    decreases width,
{
    if width == 0 {
        Seq::empty()
    } else {
        seq![(value % 256) as u8] + le_bytes(value / 256, (width - 1) as nat)
    }
}

/// The compact encoding of a collection's length: the two low bits of the
/// first byte select a width of one, two, four or five bytes.
pub open spec fn compact_len(n: nat) -> Seq<u8> {
    if n < 64 {
        le_bytes(4 * n, 1)
    } else if n < 16384 {
        le_bytes(4 * n + 1, 2)
    } else if n < 1073741824 {
        le_bytes(4 * n + 2, 4)
    } else {
        seq![3u8] + le_bytes(n, 4)
    }
}

/// The identifiers' bytes one after another, in order.
pub open spec fn tx_ids_bytes(ids: Seq<TxId>) -> Seq<u8>
    decreases ids.len(),
{
    if ids.len() == 0 {
        Seq::empty()
    } else {
        tx_ids_bytes(ids.drop_last()) + ids.last()@
    }
}

/// The encoding of a list of identifiers: its compact length, then its items.
pub open spec fn encoded_tx_ids(ids: Seq<TxId>) -> Seq<u8> {
    compact_len(ids.len()) + tx_ids_bytes(ids)
}

/// The bytes that are hashed into an identifier: the owner's encoding, the
/// encoded list of inputs, the balance as eight little-endian bytes, and the
/// timestamp's encoding, in this order and with nothing between them.
pub open spec fn tx_preimage(owner: Seq<u8>, inputs: Seq<TxId>, balance: u64, now: Seq<u8>) -> Seq<u8> {
    owner + encoded_tx_ids(inputs) + le_bytes(balance as nat, 8) + now
}

/// Calls `parity_scale_codec::Encode::encode` on a `u64`. Trusted: the result
/// is the eight bytes of `value`, least significant first.
#[verifier::external_body]
pub(crate) fn scale_encode_u64(value: u64) -> (bytes: Vec<u8>)
    ensures
        bytes@ == le_bytes(value as nat, 8),
{
    parity_scale_codec::Encode::encode(&value)
}

/// Calls `parity_scale_codec::Encode::encode` on a `Vec<[u8; 16]>`. Trusted:
/// the result is the compact encoding of the length followed by the sixteen
/// bytes of each item. The outside function panics on a length above
/// `u32::MAX`, which `requires` leaves out.
#[verifier::external_body]
pub(crate) fn scale_encode_tx_ids(ids: &Vec<TxId>) -> (bytes: Vec<u8>)
    requires
        ids@.len() <= u32::MAX,
    ensures
        bytes@ == encoded_tx_ids(ids@),
{
    parity_scale_codec::Encode::encode(ids)
}

/// Assembles the bytes that are hashed into an identifier.
pub fn encode_tx_preimage(owner: &Vec<u8>, inputs: &Vec<TxId>, balance: u64, now: &Vec<u8>) -> (bytes: Vec<u8>)
    requires
        inputs@.len() <= u32::MAX,
    ensures
        bytes@ == tx_preimage(owner@, inputs@, balance, now@),
{
    let mut bytes: Vec<u8> = Vec::new();
    append_bytes(&mut bytes, owner);
    let ids = scale_encode_tx_ids(inputs);
    append_bytes(&mut bytes, &ids);
    let amount = scale_encode_u64(balance);
    append_bytes(&mut bytes, &amount);
    append_bytes(&mut bytes, now);
    bytes
}

/// Appends a copy of `tail` to `bytes`.
pub fn append_bytes(bytes: &mut Vec<u8>, tail: &Vec<u8>)
    ensures
        final(bytes)@ == old(bytes)@ + tail@,
{
    let ghost before = bytes@;
    let mut i: usize = 0;
    while i < tail.len()
        invariant
            0 <= i <= tail@.len(),
            bytes@ == before + tail@.subrange(0, i as int),
        decreases tail@.len() - i,
    {
        bytes.push(tail[i]);
        i += 1;
        assert(bytes@ =~= before + tail@.subrange(0, i as int));
    }
    assert(tail@.subrange(0, i as int) =~= tail@);
}

} // verus!

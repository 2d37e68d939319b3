//! The pallet: the configured airdrop amount, the unspent outputs, and the
//! operations on them.

use vstd::prelude::*;
use crate::codec::{encode_tx_preimage, TxId};
use crate::hashing::blake2_128;
use crate::store::{
    after_add_tx, lemma_capacity_bound, lemma_other_owners_untouched, owned, Error, Outputs,
    UnspentOutputs,
};
use crate::transaction::{built_tx, tx_id, UtxoTransaction, MAX_INPUTS, NULL_ID};

verus! {

/// What the pallet announces.
#[derive(Clone, Copy, Debug, PartialEq, Eq)]
pub enum Event {
    /// A transaction was stored under this identifier.
    TransactionSuccessful { id: TxId },
}

/// The airdrop amount and the unspent outputs of every owner.
pub struct Pallet {
    airdrop_amount: u64,
    unspent_outputs: UnspentOutputs,
}

impl Pallet {
    /// The store's invariant holds.
    pub closed spec fn wf(&self) -> bool {
        self.unspent_outputs.wf()
    }

    /// The unspent outputs, by owner.
    pub closed spec fn outputs(&self) -> Outputs {
        self.unspent_outputs@
    }

    /// The balance of every airdropped transaction.
    pub closed spec fn amount(&self) -> u64 {
        self.airdrop_amount
    }

    /// No owner of this pallet holds more outputs than the bound allows.
    pub proof fn lemma_capacity_bound(self, owner: Seq<u8>)
        requires
            self.wf(),
        ensures
            0 <= owned(self.outputs(), owner).len() <= MAX_INPUTS,
    {
        lemma_capacity_bound(self.unspent_outputs, owner);
    }

    /// A pallet that airdrops `airdrop_amount`, with no outputs yet.
    pub fn new(airdrop_amount: u64) -> (pallet: Pallet)
        ensures
            pallet.wf(),
            pallet.amount() == airdrop_amount,
            pallet.outputs() == Outputs::empty(),
    {
        Pallet { airdrop_amount, unspent_outputs: UnspentOutputs::new() }
    }

    /// The balance of every airdropped transaction.
    pub fn airdrop_amount(&self) -> (amount: u64)
        ensures
            amount == self.amount(),
    {
        self.airdrop_amount
    }

    /// The unspent outputs, to read.
    pub fn unspent_outputs(&self) -> (store: &UnspentOutputs)
        ensures
            store@ == self.outputs(),
            store.wf() == self.wf(),
    {
        &self.unspent_outputs
    }

    /// Stores `tx` behind the other outputs of its owner, or refuses it with
    /// `InputLimitReached` where the owner is at the bound; then nothing
    /// changes.
    pub fn add_tx(&mut self, tx: UtxoTransaction) -> (res: Result<(), Error>)
        requires
            old(self).wf(),
        ensures
            final(self).wf(),
            final(self).amount() == old(self).amount(),
            res is Ok <==> owned(old(self).outputs(), tx@.owner).len() < MAX_INPUTS,
            res is Err ==> res->Err_0 == Error::InputLimitReached,
            final(self).outputs() == after_add_tx(old(self).outputs(), tx@),
    {
        self.unspent_outputs.add_tx(tx)
    }

    /// Derives a transaction's identifier: the 128-bit BLAKE2b digest of the
    /// encodings of owner, inputs, balance and time, one after another.
    pub fn gen_tx_id(owner: &Vec<u8>, inputs: &Vec<TxId>, balance: u64, now: &Vec<u8>) -> (id: TxId)
        requires
            inputs@.len() <= u32::MAX,
        ensures
            id@ == tx_id(owner@, inputs@, balance, now@),
    {
        let bytes = encode_tx_preimage(owner, inputs, balance, now);
        blake2_128(&bytes)
    }

    /// Mints a transaction of the airdrop amount, without inputs, for `to` at
    /// the time `now`, and stores it. Returns its identifier, or
    /// `InputLimitReached` where `to` is at the bound; then nothing changes.
    pub fn do_airdrop_tx(&mut self, to: Vec<u8>, now: Vec<u8>) -> (res: Result<TxId, Error>)
        requires
            old(self).wf(),
        ensures
            final(self).wf(),
            final(self).amount() == old(self).amount(),
            res is Ok <==> owned(old(self).outputs(), to@).len() < MAX_INPUTS,
            res is Ok ==> res->Ok_0@ == tx_id(to@, Seq::<TxId>::empty(), old(self).amount(), now@),
            res is Err ==> res->Err_0 == Error::InputLimitReached,
            final(self).outputs() == after_add_tx(
                old(self).outputs(),
                built_tx(to@, Seq::<TxId>::empty(), old(self).amount(), now@),
            ),
    {
        let balance = self.airdrop_amount;
        let new_tx = UtxoTransaction::new(to, Vec::new(), balance, now);
        let id = new_tx.id();
        match self.add_tx(new_tx) {
            Ok(()) => Ok(id),
            Err(e) => Err(e),
        }
    }

    /// The privileged call: mints for `to` at the time `now`, and returns the
    /// event to announce. The caller has established that the origin is root.
    pub fn airdrop_tx(&mut self, to: Vec<u8>, now: Vec<u8>) -> (res: Result<Event, Error>)
        requires
            old(self).wf(),
        ensures
            final(self).wf(),
            final(self).amount() == old(self).amount(),
            res is Ok <==> owned(old(self).outputs(), to@).len() < MAX_INPUTS,
            res is Ok ==> res->Ok_0->id@ == tx_id(to@, Seq::<TxId>::empty(), old(self).amount(), now@),
            res is Err ==> res->Err_0 == Error::InputLimitReached,
            final(self).outputs() == after_add_tx(
                old(self).outputs(),
                built_tx(to@, Seq::<TxId>::empty(), old(self).amount(), now@),
            ),
    {
        match self.do_airdrop_tx(to, now) {
            Ok(id) => Ok(Event::TransactionSuccessful { id }),
            Err(e) => Err(e),
        }
    }
}

/// Minting for one owner leaves every other owner's outputs as they were,
/// whether or not the mint is refused.
pub proof fn lemma_mint_isolation(outputs: Outputs, to: Seq<u8>, amount: u64, now: Seq<u8>, other: Seq<u8>)
    requires
        other != to,
    ensures
        after_add_tx(outputs, built_tx(to, Seq::<TxId>::empty(), amount, now)).contains_key(other)
            == outputs.contains_key(other),
        owned(after_add_tx(outputs, built_tx(to, Seq::<TxId>::empty(), amount, now)), other) == owned(
            outputs,
            other,
        ),
{
    lemma_other_owners_untouched(outputs, built_tx(to, Seq::<TxId>::empty(), amount, now), other);
}

/// A mint that is not refused puts exactly one transaction behind those that
/// the owner held: of the airdrop amount, with every input slot null, under
/// the identifier derived from owner, amount and time.
pub proof fn lemma_mint_appends(outputs: Outputs, to: Seq<u8>, amount: u64, now: Seq<u8>)
    requires
        owned(outputs, to).len() < MAX_INPUTS,
    ensures
        owned(after_add_tx(outputs, built_tx(to, Seq::<TxId>::empty(), amount, now)), to) == owned(
            outputs,
            to,
        ).push(built_tx(to, Seq::<TxId>::empty(), amount, now)),
        built_tx(to, Seq::<TxId>::empty(), amount, now).id == tx_id(to, Seq::<TxId>::empty(), amount, now),
        built_tx(to, Seq::<TxId>::empty(), amount, now).balance == amount,
        forall|i: int|
            0 <= i < MAX_INPUTS ==> #[trigger] built_tx(to, Seq::<TxId>::empty(), amount, now).inputs[i]
                == NULL_ID,
{
}

} // verus!

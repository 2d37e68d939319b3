//! The transaction record and how one is built.

use vstd::prelude::*;
use crate::codec::{tx_preimage, TxId};
use crate::hashing::blake2_128_digest;
use crate::pallet::Pallet;

verus! {

/// How many inputs a transaction names, and how many transactions an owner
/// may hold unspent.
pub const MAX_INPUTS: u32 = 100;

/// The identifier that stands for "no input".
pub const NULL_ID: TxId = [0, 0, 0, 0, 0, 0, 0, 0, 0, 0, 0, 0, 0, 0, 0, 0];

/// The identifier of a transaction: the digest of its encoded content.
pub open spec fn tx_id(owner: Seq<u8>, inputs: Seq<TxId>, balance: u64, now: Seq<u8>) -> Seq<u8> {
    blake2_128_digest(tx_preimage(owner, inputs, balance, now))
}

/// The input slots of a transaction that names `inputs`: the inputs in order,
/// as far as there is room, then the null identifier up to the full width.
pub open spec fn padded_inputs(inputs: Seq<TxId>) -> Seq<TxId> {
    Seq::new(
        100,
        |i: int|
            if i < inputs.len() {
                inputs[i]
            } else {
                NULL_ID
            },
    )
}

/// What a transaction is: its identifier, its owner's encoded account
/// identity, its input slots and its balance.
pub struct TxData {
    pub id: Seq<u8>,
    pub owner: Seq<u8>,
    pub inputs: Seq<TxId>,
    pub balance: u64,
}

/// The transaction that `UtxoTransaction::new` builds from these arguments.
pub open spec fn built_tx(owner: Seq<u8>, inputs: Seq<TxId>, balance: u64, now: Seq<u8>) -> TxData {
    TxData {
        id: tx_id(owner, inputs, balance, now),
        owner,
        inputs: padded_inputs(inputs),
        balance,
    }
}

/// An unspent transaction output. The owner is held as the encoding of the
/// account identity.
#[derive(Clone, Debug, PartialEq, Eq)]
pub struct UtxoTransaction {
    id: TxId,
    owner: Vec<u8>,
    inputs: [TxId; 100],
    balance: u64,
}

impl View for UtxoTransaction {
    type V = TxData;

    closed spec fn view(&self) -> TxData {
        TxData { id: self.id@, owner: self.owner@, inputs: self.inputs@, balance: self.balance }
    }
}

impl UtxoTransaction {
    /// Builds a transaction. Its identifier is derived from the inputs as
    /// given; its input slots hold them padded with the null identifier, and
    /// cut where there are more than the slots take.
    pub fn new(owner: Vec<u8>, inputs: Vec<TxId>, balance: u64, now: Vec<u8>) -> (tx: UtxoTransaction)
        requires
            inputs@.len() <= u32::MAX,
        ensures
            tx@ == built_tx(owner@, inputs@, balance, now@),
    {
        let id = Pallet::gen_tx_id(&owner, &inputs, balance, &now);
        let mut slots: [TxId; 100] = [NULL_ID; 100];
        let mut i: usize = 0;
        while i < 100 && i < inputs.len()
            invariant
                0 <= i <= 100,
                i <= inputs@.len(),
                forall|j: int| 0 <= j < i ==> slots@[j] == inputs@[j],
                forall|j: int| i <= j < 100 ==> slots@[j] == NULL_ID,
            decreases 100 - i,
        {
            slots[i] = inputs[i];
            i += 1;
        }
        let tx = UtxoTransaction { id, owner, inputs: slots, balance };
        assert(tx@.inputs =~= padded_inputs(inputs@));
        tx
    }

    /// A transaction of these four parts, as one read back from where it was
    /// kept.
    pub fn from_parts(id: TxId, owner: Vec<u8>, inputs: [TxId; 100], balance: u64) -> (tx: UtxoTransaction)
        ensures
            tx@ == (TxData { id: id@, owner: owner@, inputs: inputs@, balance }),
    {
        UtxoTransaction { id, owner, inputs, balance }
    }

    /// The transaction's identifier.
    pub fn id(&self) -> (id: TxId)
        ensures
            id@ == self@.id,
    {
        self.id
    }

    /// The encoded account identity of the owner.
    pub fn owner(&self) -> (owner: &Vec<u8>)
        ensures
            owner@ == self@.owner,
    {
        &self.owner
    }

    /// The input slots.
    pub fn inputs(&self) -> (inputs: &[TxId; 100])
        ensures
            inputs@ == self@.inputs,
    {
        &self.inputs
    }

    /// The balance.
    pub fn balance(&self) -> (balance: u64)
        ensures
            balance == self@.balance,
    {
        self.balance
    }

    /// Every transaction has all its input slots, and an identifier of
    /// sixteen bytes.
    pub proof fn lemma_full_width(self)
        ensures
            self@.inputs.len() == MAX_INPUTS,
            self@.id.len() == 16,
    {
    }
}

/// The input slots of a built transaction are as many as the bound says; they
/// hold the given inputs in order as far as there is room, and the null
/// identifier in every slot after them.
pub proof fn lemma_padding(owner: Seq<u8>, inputs: Seq<TxId>, balance: u64, now: Seq<u8>)
    ensures
        built_tx(owner, inputs, balance, now).inputs.len() == MAX_INPUTS,
        forall|i: int|
            0 <= i < MAX_INPUTS && i < inputs.len() ==> #[trigger] built_tx(
                owner,
                inputs,
                balance,
                now,
            ).inputs[i] == inputs[i],
        forall|i: int|
            inputs.len() <= i < MAX_INPUTS ==> #[trigger] built_tx(owner, inputs, balance, now).inputs[i]
                == NULL_ID,
{
}

/// The identifier is a function of the four arguments: equal arguments give
/// equal identifiers.
pub proof fn lemma_tx_id_deterministic(
    owner1: Seq<u8>,
    inputs1: Seq<TxId>,
    balance1: u64,
    now1: Seq<u8>,
    owner2: Seq<u8>,
    inputs2: Seq<TxId>,
    balance2: u64,
    now2: Seq<u8>,
)
    requires
        owner1 == owner2,
        inputs1 == inputs2,
        balance1 == balance2,
        now1 == now2,
    ensures
        tx_id(owner1, inputs1, balance1, now1) == tx_id(owner2, inputs2, balance2, now2),
{
}

} // verus!

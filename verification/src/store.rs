//! The unspent outputs of every owner.

use vstd::prelude::*;
use crate::bounded::{list_data, tx_list_get, tx_list_len, tx_list_new, tx_list_try_push, TxList};
use crate::codec::append_bytes;
use crate::transaction::{TxData, UtxoTransaction, MAX_INPUTS};

verus! {

/// Why a transaction was not stored.
#[derive(Clone, Copy, Debug, PartialEq, Eq)]
pub enum Error {
    /// The owner already holds as many transactions as the bound allows.
    InputLimitReached,
}

/// The stored outputs as a map from the owner's encoded identity to the
/// owner's transactions in the order in which they were added.
pub type Outputs = Map<Seq<u8>, Seq<TxData>>;

/// The transactions that `owner` holds: none where the map has no entry.
pub open spec fn owned(outputs: Outputs, owner: Seq<u8>) -> Seq<TxData> {
    if outputs.contains_key(owner) {
        outputs[owner]
    } else {
        Seq::empty()
    }
}

/// What an owner's entry holds: nothing where there is no entry yet.
pub open spec fn entry_data(entry: Option<TxList>) -> Seq<TxData> {
    match entry {
        Some(list) => list_data(list),
        None => Seq::empty(),
    }
}

/// The outputs after an attempt to add `tx`: behind the other transactions of
/// its owner where the owner holds fewer than the bound, else unchanged.
pub open spec fn after_add_tx(outputs: Outputs, tx: TxData) -> Outputs {
    if owned(outputs, tx.owner).len() < MAX_INPUTS {
        outputs.insert(tx.owner, owned(outputs, tx.owner).push(tx))
    } else {
        outputs
    }
}

/// Adds `tx` to one owner's entry. An absent entry becomes a list of this one
/// transaction; a list below the bound grows by it; a full list stays as it is
/// and the transaction is refused.
pub fn append_unspent(entry: &mut Option<TxList>, tx: UtxoTransaction) -> (res: Result<(), Error>)
    ensures
        res is Ok <==> entry_data(*old(entry)).len() < MAX_INPUTS,
        res is Ok ==> *final(entry) is Some && entry_data(*final(entry)) == entry_data(*old(entry)).push(tx@),
        res is Err ==> res->Err_0 == Error::InputLimitReached,
        res is Err ==> (*final(entry) is Some) == (*old(entry) is Some),
        res is Err ==> entry_data(*final(entry)) == entry_data(*old(entry)),
{
    match entry.take() {
        None => {
            let mut list = tx_list_new();
            let pushed = tx_list_try_push(&mut list, tx);
            *entry = Some(list);
            proof {
                assert(entry_data(*entry) =~= Seq::<TxData>::empty().push(tx@));
            }
            match pushed {
                Ok(()) => Ok(()),
                Err(_) => Err(Error::InputLimitReached),
            }
        },
        Some(mut list) => {
            let ghost before = list;
            let pushed = tx_list_try_push(&mut list, tx);
            *entry = Some(list);
            proof {
                if pushed is Ok {
                    assert(list_data(list) =~= list_data(before).push(tx@));
                }
            }
            match pushed {
                Ok(()) => Ok(()),
                Err(_) => Err(Error::InputLimitReached),
            }
        },
    }
}

/// One owner's entry.
struct OwnerEntry {
    owner: Vec<u8>,
    txs: TxList,
}

/// Whether an entry for `owner` stands in `entries`.
spec fn has_owner(entries: Seq<OwnerEntry>, owner: Seq<u8>) -> bool {
    exists|i: int| 0 <= i < entries.len() && #[trigger] entries[i].owner@ == owner
}

/// The place of the entry for `owner`.
spec fn slot_of(entries: Seq<OwnerEntry>, owner: Seq<u8>) -> int {
    choose|i: int| 0 <= i < entries.len() && #[trigger] entries[i].owner@ == owner
}

/// No owner has two entries.
spec fn distinct_owners(entries: Seq<OwnerEntry>) -> bool {
    forall|i: int, j: int|
        0 <= i < j < entries.len() ==> #[trigger] entries[i].owner@ != #[trigger] entries[j].owner@
}

/// The map that the entries stand for.
spec fn outputs_of(entries: Seq<OwnerEntry>) -> Outputs {
    Map::new(
        |owner: Seq<u8>| has_owner(entries, owner),
        |owner: Seq<u8>| list_data(entries[slot_of(entries, owner)].txs),
    )
}

/// With distinct owners, the entry at `i` is the one found for its owner.
proof fn lemma_slot(entries: Seq<OwnerEntry>, i: int)
    requires
        distinct_owners(entries),
        0 <= i < entries.len(),
    ensures
        has_owner(entries, entries[i].owner@),
        slot_of(entries, entries[i].owner@) == i,
        outputs_of(entries).contains_key(entries[i].owner@),
        outputs_of(entries)[entries[i].owner@] == list_data(entries[i].txs),
{
    let owner = entries[i].owner@;
    assert(has_owner(entries, owner));
    let j = slot_of(entries, owner);
    assert(0 <= j < entries.len() && entries[j].owner@ == owner);
    if j < i {
        assert(entries[j].owner@ != entries[i].owner@);
    }
    if i < j {
        assert(entries[i].owner@ != entries[j].owner@);
    }
}

/// An entry for an owner that had none adds that owner to the map and leaves
/// the rest of it.
proof fn lemma_new_owner(before: Seq<OwnerEntry>, entry: OwnerEntry)
    requires
        distinct_owners(before),
        !has_owner(before, entry.owner@),
    ensures
        distinct_owners(before.push(entry)),
        outputs_of(before.push(entry)) == outputs_of(before).insert(entry.owner@, list_data(entry.txs)),
{
    let after = before.push(entry);
    let last = before.len() as int;
    assert forall|i: int, j: int| 0 <= i < j < after.len() implies after[i].owner@ != after[j].owner@ by {
        if j == last {
            assert(before[i].owner@ != entry.owner@);
        } else {
            assert(before[i].owner@ != before[j].owner@);
        }
    }
    assert forall|k: Seq<u8>| has_owner(after, k) <==> (k == entry.owner@ || has_owner(before, k)) by {
        if has_owner(after, k) {
            let i = slot_of(after, k);
            if i < last {
                assert(before[i].owner@ == k);
            }
        }
        if has_owner(before, k) {
            let i = slot_of(before, k);
            assert(after[i].owner@ == k);
        }
        if k == entry.owner@ {
            assert(after[last].owner@ == k);
        }
    }
    assert forall|k: Seq<u8>| has_owner(before, k) implies #[trigger] outputs_of(after)[k] == outputs_of(
        before,
    )[k] by {
        let i = slot_of(before, k);
        lemma_slot(before, i);
        lemma_slot(after, i);
    }
    lemma_slot(after, last);
    assert(outputs_of(after) =~= outputs_of(before).insert(entry.owner@, list_data(entry.txs)));
}

/// Another list for the owner at `place` changes that owner's outputs and
/// leaves the rest of the map.
proof fn lemma_same_owner(before: Seq<OwnerEntry>, place: int, entry: OwnerEntry)
    requires
        distinct_owners(before),
        0 <= place < before.len(),
        entry.owner@ == before[place].owner@,
    ensures
        distinct_owners(before.update(place, entry)),
        outputs_of(before.update(place, entry)) == outputs_of(before).insert(
            entry.owner@,
            list_data(entry.txs),
        ),
{
    let after = before.update(place, entry);
    assert forall|i: int, j: int| 0 <= i < j < after.len() implies after[i].owner@ != after[j].owner@ by {
        assert(before[i].owner@ != before[j].owner@);
    }
    assert forall|k: Seq<u8>| has_owner(after, k) <==> has_owner(before, k) by {
        if has_owner(after, k) {
            let i = slot_of(after, k);
            assert(before[i].owner@ == k);
        }
        if has_owner(before, k) {
            let i = slot_of(before, k);
            assert(after[i].owner@ == k);
        }
    }
    assert forall|k: Seq<u8>| has_owner(before, k) && k != entry.owner@ implies #[trigger] outputs_of(
        after,
    )[k] == outputs_of(before)[k] by {
        let i = slot_of(before, k);
        lemma_slot(before, i);
        lemma_slot(after, i);
    }
    lemma_slot(before, place);
    lemma_slot(after, place);
    assert(outputs_of(after) =~= outputs_of(before).insert(entry.owner@, list_data(entry.txs)));
}

/// The unspent outputs of every owner. An owner holds at most a hundred, in
/// the order in which they were added; nothing is ever changed or removed.
pub struct UnspentOutputs {
    entries: Vec<OwnerEntry>,
}

impl View for UnspentOutputs {
    type V = Outputs;

    closed spec fn view(&self) -> Outputs {
        outputs_of(self.entries@)
    }
}

impl UnspentOutputs {
    /// No owner has two entries, and no owner holds more than the bound.
    pub closed spec fn wf(&self) -> bool {
        &&& distinct_owners(self.entries@)
        &&& forall|i: int|
            0 <= i < self.entries@.len() ==> (#[trigger] list_data(self.entries@[i].txs)).len()
                <= MAX_INPUTS
    }

    /// A store without any owner.
    pub fn new() -> (store: UnspentOutputs)
        ensures
            store.wf(),
            store@ == Outputs::empty(),
    {
        let store = UnspentOutputs { entries: Vec::new() };
        assert(store@ =~= Outputs::empty());
        store
    }

    /// The place of the entry for `owner`, if there is one.
    fn find(&self, owner: &Vec<u8>) -> (place: Option<usize>)
        ensures
            place is Some ==> place->Some_0 < self.entries@.len() && self.entries@[place->Some_0 as int].owner@
                == owner@,
            place is None ==> !has_owner(self.entries@, owner@),
    {
        let mut i: usize = 0;
        while i < self.entries.len()
            invariant
                0 <= i <= self.entries@.len(),
                forall|j: int| 0 <= j < i ==> (#[trigger] self.entries@[j]).owner@ != owner@,
            decreases self.entries@.len() - i,
        {
            if same_bytes(&self.entries[i].owner, owner) {
                return Some(i);
            }
            i += 1;
        }
        None
    }

    /// Adds `tx` to the outputs of its owner, behind those already there. An
    /// owner who holds as many as the bound allows gets `InputLimitReached`,
    /// and nothing changes.
    pub fn add_tx(&mut self, tx: UtxoTransaction) -> (res: Result<(), Error>)
        requires
            old(self).wf(),
        ensures
            final(self).wf(),
            res is Ok <==> owned(old(self)@, tx@.owner).len() < MAX_INPUTS,
            res is Err ==> res->Err_0 == Error::InputLimitReached,
            final(self)@ == after_add_tx(old(self)@, tx@),
    {
        let ghost before = self.entries@;
        let ghost data = tx@;
        let mut owner: Vec<u8> = Vec::new();
        append_bytes(&mut owner, tx.owner());
        assert(owner@ =~= data.owner);
        match self.find(&owner) {
            None => {
                let mut slot: Option<TxList> = None;
                let res = append_unspent(&mut slot, tx);
                let entry = OwnerEntry { owner, txs: slot.unwrap() };
                proof {
                    lemma_new_owner(before, entry);
                    assert(list_data(entry.txs) =~= owned(outputs_of(before), data.owner).push(data));
                }
                self.entries.push(entry);
                res
            },
            Some(place) => {
                proof {
                    lemma_slot(before, place as int);
                }
                let OwnerEntry { owner: key, txs } = self.entries.remove(place);
                let mut slot: Option<TxList> = Some(txs);
                let res = append_unspent(&mut slot, tx);
                let entry = OwnerEntry { owner: key, txs: slot.unwrap() };
                proof {
                    lemma_same_owner(before, place as int, entry);
                    assert(before.remove(place as int).insert(place as int, entry) =~= before.update(
                        place as int,
                        entry,
                    ));
                    if res is Err {
                        assert(outputs_of(before).insert(data.owner, list_data(entry.txs)) =~= outputs_of(
                            before,
                        ));
                    }
                }
                self.entries.insert(place, entry);
                res
            },
        }
    }

    /// How many outputs `owner` holds.
    pub fn count(&self, owner: &Vec<u8>) -> (n: usize)
        requires
            self.wf(),
        ensures
            n == owned(self@, owner@).len(),
            n <= MAX_INPUTS,
    {
        match self.find(owner) {
            None => 0,
            Some(i) => {
                proof {
                    lemma_slot(self.entries@, i as int);
                }
                tx_list_len(&self.entries[i].txs)
            },
        }
    }

    /// The output of `owner` at `index`, counted from the first that was
    /// added; `None` where the owner holds no more than `index`.
    pub fn get(&self, owner: &Vec<u8>, index: usize) -> (tx: Option<&UtxoTransaction>)
        requires
            self.wf(),
        ensures
            tx is Some <==> index < owned(self@, owner@).len(),
            tx is Some ==> tx->Some_0@ == owned(self@, owner@)[index as int],
    {
        match self.find(owner) {
            None => None,
            Some(i) => {
                proof {
                    lemma_slot(self.entries@, i as int);
                }
                tx_list_get(&self.entries[i].txs, index)
            },
        }
    }
}

/// Whether two byte strings are the same.
pub fn same_bytes(a: &Vec<u8>, b: &Vec<u8>) -> (same: bool)
    ensures
        same == (a@ == b@),
{
    if a.len() != b.len() {
        return false;
    }
    let mut i: usize = 0;
    while i < a.len()
        invariant
            a@.len() == b@.len(),
            0 <= i <= a@.len(),
            forall|j: int| 0 <= j < i ==> a@[j] == b@[j],
        decreases a@.len() - i,
    {
        if a[i] != b[i] {
            return false;
        }
        i += 1;
    }
    assert(a@ =~= b@);
    true
}

/// Every owner holds at most as many outputs as the bound allows.
pub proof fn lemma_capacity_bound(store: UnspentOutputs, owner: Seq<u8>)
    requires
        store.wf(),
    ensures
        0 <= owned(store@, owner).len() <= MAX_INPUTS,
{
    if store@.contains_key(owner) {
        let i = slot_of(store.entries@, owner);
        lemma_slot(store.entries@, i);
    }
}

/// An owner at the bound stays as it is: adding a transaction changes nothing.
pub proof fn lemma_full_owner_unchanged(outputs: Outputs, tx: TxData)
    requires
        owned(outputs, tx.owner).len() >= MAX_INPUTS,
    ensures
        after_add_tx(outputs, tx) == outputs,
{
}

/// Adding a transaction removes and changes nothing: what an owner held
/// before stands at the same place afterwards.
pub proof fn lemma_append_only(outputs: Outputs, tx: TxData, owner: Seq<u8>, index: int)
    requires
        0 <= index < owned(outputs, owner).len(),
    ensures
        index < owned(after_add_tx(outputs, tx), owner).len(),
        owned(after_add_tx(outputs, tx), owner)[index] == owned(outputs, owner)[index],
{
}

/// Adding a transaction for one owner leaves every other owner's outputs as
/// they were.
pub proof fn lemma_other_owners_untouched(outputs: Outputs, tx: TxData, other: Seq<u8>)
    requires
        other != tx.owner,
    ensures
        after_add_tx(outputs, tx).contains_key(other) == outputs.contains_key(other),
        owned(after_add_tx(outputs, tx), other) == owned(outputs, other),
{
}

} // verus!

use pallet_utxo::bounded::TxList;
use pallet_utxo::store::append_unspent;
use pallet_utxo::{Error, Event, Pallet, UnspentOutputs, UtxoTransaction, NULL_ID};

fn alice() -> Vec<u8> {
    vec![0xA1; 32]
}

fn bob() -> Vec<u8> {
    vec![0xB0; 32]
}

fn time(t: u64) -> Vec<u8> {
    t.to_le_bytes().to_vec()
}

fn outputs_of(store: &UnspentOutputs, owner: &Vec<u8>) -> Vec<UtxoTransaction> {
    let mut all = Vec::new();
    let mut i = 0;
    while let Some(tx) = store.get(owner, i) {
        all.push(tx.clone());
        i += 1;
    }
    assert_eq!(all.len(), store.count(owner));
    all
}

#[test]
fn mint_to_an_owner_without_outputs() {
    let mut pallet = Pallet::new(50);
    assert_eq!(pallet.airdrop_amount(), 50);
    assert_eq!(pallet.unspent_outputs().count(&alice()), 0);
    let id = pallet.do_airdrop_tx(alice(), time(1000)).unwrap();
    assert_eq!(id, Pallet::gen_tx_id(&alice(), &Vec::new(), 50, &time(1000)));
    let held = outputs_of(pallet.unspent_outputs(), &alice());
    assert_eq!(held.len(), 1);
    assert_eq!(held[0].id(), id);
    assert_eq!(held[0].owner(), &alice());
    assert_eq!(held[0].balance(), 50);
    assert_eq!(held[0].inputs(), &[NULL_ID; 100]);
    assert_eq!(held[0], UtxoTransaction::new(alice(), Vec::new(), 50, time(1000)));
}

#[test]
fn mint_to_an_owner_at_the_bound_fails() {
    let mut pallet = Pallet::new(50);
    for t in 0..100u64 {
        assert!(pallet.do_airdrop_tx(alice(), time(t)).is_ok());
    }
    let before = outputs_of(pallet.unspent_outputs(), &alice());
    assert_eq!(before.len(), 100);
    assert_eq!(pallet.do_airdrop_tx(alice(), time(100)), Err(Error::InputLimitReached));
    let after = outputs_of(pallet.unspent_outputs(), &alice());
    assert_eq!(after.len(), 100);
    assert_eq!(after, before);
    assert_eq!(pallet.airdrop_tx(alice(), time(101)), Err(Error::InputLimitReached));
    assert_eq!(outputs_of(pallet.unspent_outputs(), &alice()), before);
    assert!(pallet.do_airdrop_tx(bob(), time(100)).is_ok());
}

#[test]
fn two_mints_at_different_times() {
    let mut pallet = Pallet::new(50);
    let first = pallet.do_airdrop_tx(alice(), time(1)).unwrap();
    let second = pallet.do_airdrop_tx(alice(), time(2)).unwrap();
    assert_ne!(first, second);
    let held = outputs_of(pallet.unspent_outputs(), &alice());
    assert_eq!(held.len(), 2);
    assert_eq!(held[0].id(), first);
    assert_eq!(held[1].id(), second);
    assert_eq!(held[0].balance(), 50);
    assert_eq!(held[1].balance(), 50);
}

#[test]
fn mint_leaves_other_owners_alone() {
    let mut pallet = Pallet::new(7);
    pallet.do_airdrop_tx(bob(), time(1)).unwrap();
    pallet.do_airdrop_tx(bob(), time(2)).unwrap();
    let before = outputs_of(pallet.unspent_outputs(), &bob());
    pallet.do_airdrop_tx(alice(), time(3)).unwrap();
    pallet.do_airdrop_tx(alice(), time(4)).unwrap();
    assert_eq!(outputs_of(pallet.unspent_outputs(), &bob()), before);
    assert_eq!(pallet.unspent_outputs().count(&alice()), 2);
    assert_eq!(pallet.unspent_outputs().count(&vec![1, 2, 3]), 0);
    assert!(pallet.unspent_outputs().get(&vec![1, 2, 3], 0).is_none());
}

#[test]
fn earlier_outputs_stay_as_they_are() {
    let mut store = UnspentOutputs::new();
    let first = UtxoTransaction::new(alice(), vec![[3; 16]], 11, time(1));
    let second = UtxoTransaction::new(alice(), Vec::new(), 12, time(2));
    let third = UtxoTransaction::new(bob(), Vec::new(), 13, time(3));
    assert_eq!(store.add_tx(first.clone()), Ok(()));
    assert_eq!(outputs_of(&store, &alice()), vec![first.clone()]);
    assert_eq!(store.add_tx(second.clone()), Ok(()));
    assert_eq!(store.add_tx(third.clone()), Ok(()));
    assert_eq!(outputs_of(&store, &alice()), vec![first, second]);
    assert_eq!(outputs_of(&store, &bob()), vec![third]);
    assert!(store.get(&alice(), 2).is_none());
}

#[test]
fn add_tx_refuses_the_hundred_and_first() {
    let mut pallet = Pallet::new(1);
    for t in 0..100u64 {
        let tx = UtxoTransaction::new(alice(), Vec::new(), t, time(t));
        assert_eq!(pallet.add_tx(tx), Ok(()));
    }
    assert_eq!(pallet.unspent_outputs().count(&alice()), 100);
    let held = outputs_of(pallet.unspent_outputs(), &alice());
    let extra = UtxoTransaction::new(alice(), Vec::new(), 100, time(100));
    assert_eq!(pallet.add_tx(extra), Err(Error::InputLimitReached));
    assert_eq!(outputs_of(pallet.unspent_outputs(), &alice()), held);
    assert_eq!(held[99].balance(), 99);
    assert_eq!(held[0].balance(), 0);
}

#[test]
fn airdrop_announces_the_identifier() {
    let mut pallet = Pallet::new(50);
    let event = pallet.airdrop_tx(alice(), time(9)).unwrap();
    let id = Pallet::gen_tx_id(&alice(), &Vec::new(), 50, &time(9));
    assert_eq!(event, Event::TransactionSuccessful { id });
    assert_eq!(pallet.unspent_outputs().get(&alice(), 0).unwrap().id(), id);
    assert_eq!(pallet.unspent_outputs().count(&alice()), 1);
}

#[test]
fn append_to_an_absent_entry() {
    let mut entry: Option<TxList> = None;
    let tx = UtxoTransaction::new(alice(), Vec::new(), 5, time(1));
    assert_eq!(append_unspent(&mut entry, tx.clone()), Ok(()));
    let list = entry.unwrap();
    assert_eq!(list.len(), 1);
    assert_eq!(list[0], tx);
}

#[test]
fn append_to_an_entry_up_to_the_bound() {
    let mut entry: Option<TxList> = Some(TxList::new());
    for t in 0..100u64 {
        let tx = UtxoTransaction::new(alice(), Vec::new(), t, time(t));
        assert_eq!(append_unspent(&mut entry, tx), Ok(()));
        assert_eq!(entry.as_ref().unwrap().len(), t as usize + 1);
    }
    let before = entry.as_ref().unwrap().to_vec();
    let extra = UtxoTransaction::new(alice(), Vec::new(), 100, time(100));
    assert_eq!(append_unspent(&mut entry, extra), Err(Error::InputLimitReached));
    assert_eq!(entry.unwrap().to_vec(), before);
    assert_eq!(before[42].balance(), 42);
}

#[test]
fn new_store_is_empty() {
    let store = UnspentOutputs::new();
    assert_eq!(store.count(&alice()), 0);
    assert!(store.get(&alice(), 0).is_none());
}

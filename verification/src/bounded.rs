//! The bounded list in which an owner's unspent transactions are kept.

use vstd::prelude::*;
use frame_support::pallet_prelude::{BoundedVec, ConstU32};
use crate::transaction::{TxData, UtxoTransaction};

verus! {

/// `BoundedVec` of `bounded_collections`, as `frame_support` hands it on:
/// declared as it stands, with nothing known of what is inside.
#[verifier::external_type_specification]
#[verifier::external_body]
#[verifier::reject_recursive_types(T)]
#[verifier::reject_recursive_types(S)]
pub struct ExBoundedVec<T, S>(BoundedVec<T, S>);

/// `ConstU32` of `bounded_collections`, which gives a `BoundedVec` its bound.
#[verifier::external_type_specification]
#[verifier::external_body]
pub struct ExConstU32<const T: u32>(ConstU32<T>);

/// An owner's unspent transactions: at most a hundred, in the order in which
/// they came.
pub type TxList = BoundedVec<UtxoTransaction, ConstU32<100>>;

/// The transactions that a list holds, first to last.
pub uninterp spec fn held(list: TxList) -> Seq<UtxoTransaction>;

/// What the transactions of a list are, first to last.
pub open spec fn list_data(list: TxList) -> Seq<TxData> {
    held(list).map_values(|tx: UtxoTransaction| tx@)
}

/// Calls `BoundedVec::new`. Trusted: the new list holds nothing.
#[verifier::external_body]
pub(crate) fn tx_list_new() -> (list: TxList)
    ensures
        held(list) == Seq::<UtxoTransaction>::empty(),
{
    BoundedVec::new()
}

/// Calls `BoundedVec::try_push`. Trusted: with fewer items than the bound of
/// a hundred, the item is put behind the others and the call returns `Ok`;
/// otherwise the list stays as it is and the item comes back in `Err`.
#[verifier::external_body]
pub(crate) fn tx_list_try_push(list: &mut TxList, tx: UtxoTransaction) -> (res: Result<(), UtxoTransaction>)
    ensures
        res is Ok <==> held(*old(list)).len() < 100,
        res is Ok ==> held(*final(list)) == held(*old(list)).push(tx),
        res is Err ==> res->Err_0 == tx && held(*final(list)) == held(*old(list)),
{
    list.try_push(tx)
}

/// Calls `Vec::len` through the list's `Deref`. Trusted: the result is the
/// number of items held.
#[verifier::external_body]
pub(crate) fn tx_list_len(list: &TxList) -> (n: usize)
    ensures
        n == held(*list).len(),
{
    list.len()
}

/// Calls `Vec::get` through the list's `Deref`. Trusted: the result is the
/// item at `index`, or `None` where the list is not that long.
#[verifier::external_body]
pub(crate) fn tx_list_get(list: &TxList, index: usize) -> (tx: Option<&UtxoTransaction>)
    ensures
        index < held(*list).len() ==> tx == Some(&held(*list)[index as int]),
        index >= held(*list).len() ==> tx is None,
{
    list.get(index)
}

} // verus!

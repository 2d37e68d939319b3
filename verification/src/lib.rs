//! A per-account store of unspent transaction records: every record carries an
//! identifier derived from its content and a timestamp, and every account
//! holds at most a fixed number of records.
//!
//! An account identity and a timestamp enter as their SCALE encodings; the
//! pallet that stores them for a runtime encodes them and keeps the storage.

pub mod bounded;
pub mod codec;
pub mod hashing;
pub mod pallet;
pub mod store;
pub mod transaction;

pub use codec::TxId;
pub use pallet::{Event, Pallet};
pub use store::{Error, UnspentOutputs};
pub use transaction::{UtxoTransaction, MAX_INPUTS, NULL_ID};

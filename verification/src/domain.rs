//! Domain values returned by the query operations. All are transient:
//! constructed per call and owned by the caller.

use vstd::prelude::*;

verus! {

/// Confirmed and unconfirmed balance of an address, in satoshis.
#[derive(Clone, Copy, Debug, PartialEq, Eq, Structural)]
pub struct AddressBalance {
    pub confirmed: u64,
    pub unconfirmed: u64,
}

/// One entry of an address's transaction history. A negative height
/// denotes an unconfirmed (mempool) transaction, per protocol convention.
#[derive(Clone, Debug, PartialEq, Eq)]
pub struct HistoricalTransaction {
    pub height: i64,
    pub tx_hash: String,
}

/// One unspent transaction output of an address.
#[derive(Clone, Debug, PartialEq, Eq)]
pub struct Utxo {
    pub height: u64,
    pub tx_hash: String,
    pub tx_pos: u64,
    pub value: u64,
}

} // verus!

//! Token transfers that the ledger orders.

use vstd::prelude::*;
use crate::model::TransferOrder;
use crate::wallet::Wallet;

verus! {

/// An order to move `amount` of the asset `token` from one wallet to another. The
/// ledger moves no tokens itself: it says which transfer an operation needs, and is
/// told whether that transfer was settled.
#[derive(Debug)]
pub struct Transfer {
    /// The asset to move.
    pub token: Wallet,
    /// The wallet that pays.
    pub from: Wallet,
    /// The wallet that is paid.
    pub to: Wallet,
    /// How much to move.
    pub amount: i128,
}

impl View for Transfer {
    type V = TransferOrder;

    open spec fn view(&self) -> TransferOrder {
        TransferOrder { token: self.token@, from: self.from@, to: self.to@, amount: self.amount as int }
    }
}

} // verus!

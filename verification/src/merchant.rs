//! Merchant records.

use vstd::prelude::*;
use crate::wallet::Wallet;

verus! {

/// A registered merchant.
#[derive(Debug)]
pub struct Merchant {
    /// Display name.
    pub name: String,
    /// The wallet under which the merchant is registered and is paid.
    pub wallet: Wallet,
    /// Points minted per unit of payment currency.
    pub points_ratio: u32,
    /// All points minted for this merchant's customers so far.
    pub total_points_issued: u32,
    /// Points required per unit of reward currency.
    pub redemption_rate: u32,
}

/// What a merchant record says, as a mathematical value.
pub struct MerchantRecord {
    pub name: Seq<char>,
    pub wallet: Seq<char>,
    pub points_ratio: u32,
    pub total_points_issued: u32,
    pub redemption_rate: u32,
}

impl View for Merchant {
    type V = MerchantRecord;

    open spec fn view(&self) -> MerchantRecord {
        MerchantRecord {
            name: self.name@,
            wallet: self.wallet@,
            points_ratio: self.points_ratio,
            total_points_issued: self.total_points_issued,
            redemption_rate: self.redemption_rate,
        }
    }
}

impl Clone for Merchant {
    fn clone(&self) -> (copy: Merchant)
        ensures
            copy@ == self@,
    {
        Merchant {
            name: self.name.clone(),
            wallet: self.wallet.clone(),
            points_ratio: self.points_ratio,
            total_points_issued: self.total_points_issued,
            redemption_rate: self.redemption_rate,
        }
    }
}

} // verus!

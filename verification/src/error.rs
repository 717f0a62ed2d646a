//! The ways in which a ledger operation is refused.

use vstd::prelude::*;

verus! {

/// Why an operation on the ledger was refused. A refused operation changes nothing.
#[derive(Clone, Copy, Debug, PartialEq, Eq, Structural)]
pub enum LedgerError {
    /// A merchant record already exists for the wallet.
    AlreadyRegistered,
    /// No merchant record exists for the wallet.
    NotRegistered,
    /// The call carries no proof of control over the wallet that must approve it.
    Unauthorized,
    /// A rate of zero was offered.
    InvalidRate,
    /// The customer holds fewer points than the call asks to redeem.
    InsufficientPoints,
    /// The customer has no balance record at all.
    NoPointsFound,
    /// The points offered are worth less than one unit of reward.
    ZeroReward,
    /// A points amount or a counter would leave its range.
    ArithmeticOverflow,
    /// The token transfer that the operation orders was not settled.
    TransferRejected,
}

impl LedgerError {
    /// What `message` returns for each error.
    pub open spec fn text(self) -> Seq<char> {
        match self {
            LedgerError::AlreadyRegistered => "merchant already registered"@,
            LedgerError::NotRegistered => "merchant not registered"@,
            LedgerError::Unauthorized => "wallet did not authorize the call"@,
            LedgerError::InvalidRate => "rates cannot be zero"@,
            LedgerError::InsufficientPoints => "insufficient points"@,
            LedgerError::NoPointsFound => "no points found"@,
            LedgerError::ZeroReward => "points amount too low for redemption"@,
            LedgerError::ArithmeticOverflow => "points amount out of range"@,
            LedgerError::TransferRejected => "token transfer rejected"@,
        }
    }

    /// A short description of the error, for a person to read.
    pub fn message(&self) -> (message: &'static str)
        ensures
            message@ == self.text(),
    {
        match self {
            LedgerError::AlreadyRegistered => "merchant already registered",
            LedgerError::NotRegistered => "merchant not registered",
            LedgerError::Unauthorized => "wallet did not authorize the call",
            LedgerError::InvalidRate => "rates cannot be zero",
            LedgerError::InsufficientPoints => "insufficient points",
            LedgerError::NoPointsFound => "no points found",
            LedgerError::ZeroReward => "points amount too low for redemption",
            LedgerError::ArithmeticOverflow => "points amount out of range",
            LedgerError::TransferRejected => "token transfer rejected",
        }
    }
}

} // verus!

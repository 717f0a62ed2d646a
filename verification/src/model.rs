//! The ledger as a mathematical value, and what each operation makes of it.
//!
//! Every operation is described by two functions: its outcome, which says whether the
//! call succeeds and with what, and the state after it, which is the state before it
//! whenever the outcome is an error.

use vstd::prelude::*;
use crate::error::LedgerError;
use crate::merchant::MerchantRecord;

verus! {

/// Everything the ledger keeps: the merchant records of the registry and the point
/// balances of the customers, each keyed by wallet.
pub struct LedgerState {
    pub merchants: Map<Seq<char>, MerchantRecord>,
    pub balances: Map<Seq<char>, u32>,
}

/// A token transfer that an operation orders from the outside.
pub struct TransferOrder {
    pub token: Seq<char>,
    pub from: Seq<char>,
    pub to: Seq<char>,
    pub amount: int,
}

impl LedgerState {
    /// The ledger in which nobody is registered and nobody holds points.
    pub open spec fn empty() -> LedgerState {
        LedgerState { merchants: Map::empty(), balances: Map::empty() }
    }

    /// The points of `customer`: zero for a wallet without a balance record.
    pub open spec fn points(self, customer: Seq<char>) -> u32 {
        if self.balances.contains_key(customer) {
            self.balances[customer]
        } else {
            0
        }
    }

    /// The ledger with `record` written under the record's own wallet.
    pub open spec fn with_merchant(self, record: MerchantRecord) -> LedgerState {
        LedgerState { merchants: self.merchants.insert(record.wallet, record), balances: self.balances }
    }

    /// The ledger with `balance` written as the balance of `customer`.
    pub open spec fn with_points(self, customer: Seq<char>, balance: u32) -> LedgerState {
        LedgerState { merchants: self.merchants, balances: self.balances.insert(customer, balance) }
    }
}

/// Registration fails for a wallet that has a record, whoever asks; else it needs the
/// wallet's approval.
pub open spec fn register_outcome(s: LedgerState, wallet: Seq<char>, authorized: bool) -> Result<
    (),
    LedgerError,
> {
    if s.merchants.contains_key(wallet) {
        Err(LedgerError::AlreadyRegistered)
    } else if !authorized {
        Err(LedgerError::Unauthorized)
    } else {
        Ok(())
    }
}

/// The state after a registration: on success the wallet has a fresh record that has
/// issued no points.
pub open spec fn after_register(
    s: LedgerState,
    wallet: Seq<char>,
    name: Seq<char>,
    points_ratio: u32,
    redemption_rate: u32,
    authorized: bool,
) -> LedgerState {
    if register_outcome(s, wallet, authorized) is Ok {
        s.with_merchant(
            MerchantRecord { name, wallet, points_ratio, total_points_issued: 0, redemption_rate },
        )
    } else {
        s
    }
}

/// The transfer that a payment orders: the amount paid, from the customer to the merchant.
/// None is ordered without the customer's approval, or for a merchant that is not
/// registered.
pub open spec fn payment_order(
    s: LedgerState,
    merchant: Seq<char>,
    customer: Seq<char>,
    token: Seq<char>,
    amount: int,
    authorized: bool,
) -> Result<TransferOrder, LedgerError> {
    if !authorized {
        Err(LedgerError::Unauthorized)
    } else if !s.merchants.contains_key(merchant) {
        Err(LedgerError::NotRegistered)
    } else {
        Ok(TransferOrder { token, from: customer, to: merchant, amount })
    }
}

/// The points minted for a payment of `amount` at `points_ratio` points per unit.
pub open spec fn points_for(amount: int, points_ratio: int) -> int {
    amount * points_ratio
}

/// Whether the points of a payment, the merchant's counter with them and the customer's
/// balance with them all stay in the range of a points amount.
pub open spec fn payment_fits(s: LedgerState, merchant: Seq<char>, customer: Seq<char>, amount: int) -> bool {
    let record = s.merchants[merchant];
    let points = points_for(amount, record.points_ratio as int);
    &&& 0 <= points <= u32::MAX
    &&& record.total_points_issued + points <= u32::MAX
    &&& s.points(customer) + points <= u32::MAX
}

/// A payment yields the points it mints. It fails as its order does; else it needs the
/// ordered transfer settled and points that fit, and fails on the first that is missing.
pub open spec fn payment_outcome(
    s: LedgerState,
    merchant: Seq<char>,
    customer: Seq<char>,
    token: Seq<char>,
    amount: int,
    authorized: bool,
    settled: bool,
) -> Result<u32, LedgerError> {
    match payment_order(s, merchant, customer, token, amount, authorized) {
        Err(refusal) => Err(refusal),
        Ok(_) => if !settled {
            Err(LedgerError::TransferRejected)
        } else if !payment_fits(s, merchant, customer, amount) {
            Err(LedgerError::ArithmeticOverflow)
        } else {
            Ok(points_for(amount, s.merchants[merchant].points_ratio as int) as u32)
        },
    }
}

/// The state after a payment: on success the points are added to the merchant's counter
/// and to the customer's balance, which then has a record.
pub open spec fn after_payment(
    s: LedgerState,
    merchant: Seq<char>,
    customer: Seq<char>,
    token: Seq<char>,
    amount: int,
    authorized: bool,
    settled: bool,
) -> LedgerState {
    match payment_outcome(s, merchant, customer, token, amount, authorized, settled) {
        Ok(points) => {
            let record = s.merchants[merchant];
            LedgerState {
                merchants: s.merchants.insert(
                    merchant,
                    MerchantRecord {
                        total_points_issued: (record.total_points_issued + points) as u32,
                        ..record
                    },
                ),
                balances: s.balances.insert(customer, (s.points(customer) + points) as u32),
            }
        },
        Err(_) => s,
    }
}

/// The reward for `points_amount` points at `redemption_rate` points per unit: the
/// quotient, rounded down.
pub open spec fn reward_for(points_amount: u32, redemption_rate: u32) -> int
    recommends
        redemption_rate != 0,
{
    points_amount as int / redemption_rate as int
}

/// Whether a redemption gets as far as working out the reward: it is approved, the
/// merchant is registered and the customer has a balance record that covers the points.
pub open spec fn redemption_reaches_reward(
    s: LedgerState,
    merchant: Seq<char>,
    customer: Seq<char>,
    points_amount: u32,
    authorized: bool,
) -> bool {
    &&& authorized
    &&& s.merchants.contains_key(merchant)
    &&& s.balances.contains_key(customer)
    &&& s.balances[customer] >= points_amount
}

/// The transfer that a redemption orders: the reward, from the merchant to the customer.
/// None is ordered without the customer's approval, for a merchant that is not
/// registered, for a customer without a balance record or with too few points, at a
/// redemption rate of zero, by which no reward can be worked out, or for a reward of
/// zero; the first of these that holds is the error.
pub open spec fn redemption_order(
    s: LedgerState,
    merchant: Seq<char>,
    customer: Seq<char>,
    token: Seq<char>,
    points_amount: u32,
    authorized: bool,
) -> Result<TransferOrder, LedgerError> {
    if !authorized {
        Err(LedgerError::Unauthorized)
    } else if !s.merchants.contains_key(merchant) {
        Err(LedgerError::NotRegistered)
    } else if !s.balances.contains_key(customer) {
        Err(LedgerError::NoPointsFound)
    } else if s.balances[customer] < points_amount {
        Err(LedgerError::InsufficientPoints)
    } else if s.merchants[merchant].redemption_rate == 0 {
        Err(LedgerError::InvalidRate)
    } else if reward_for(points_amount, s.merchants[merchant].redemption_rate) == 0 {
        Err(LedgerError::ZeroReward)
    } else {
        Ok(
            TransferOrder {
                token,
                from: merchant,
                to: customer,
                amount: reward_for(points_amount, s.merchants[merchant].redemption_rate),
            },
        )
    }
}

/// A redemption fails as its order does; else it succeeds exactly if the ordered
/// transfer was settled.
pub open spec fn redeem_outcome(
    s: LedgerState,
    merchant: Seq<char>,
    customer: Seq<char>,
    token: Seq<char>,
    points_amount: u32,
    authorized: bool,
    settled: bool,
) -> Result<(), LedgerError> {
    match redemption_order(s, merchant, customer, token, points_amount, authorized) {
        Err(refusal) => Err(refusal),
        Ok(_) => if settled {
            Ok(())
        } else {
            Err(LedgerError::TransferRejected)
        },
    }
}

/// The state after a redemption: on success the points are taken off the customer's
/// balance.
pub open spec fn after_redeem(
    s: LedgerState,
    merchant: Seq<char>,
    customer: Seq<char>,
    token: Seq<char>,
    points_amount: u32,
    authorized: bool,
    settled: bool,
) -> LedgerState {
    if redeem_outcome(s, merchant, customer, token, points_amount, authorized, settled) is Ok {
        s.with_points(customer, (s.balances[customer] - points_amount) as u32)
    } else {
        s
    }
}

/// New rates need the merchant's approval, must both be positive, and are for a
/// registered merchant.
pub open spec fn update_rates_outcome(
    s: LedgerState,
    wallet: Seq<char>,
    points_ratio: u32,
    redemption_rate: u32,
    authorized: bool,
) -> Result<(), LedgerError> {
    if !authorized {
        Err(LedgerError::Unauthorized)
    } else if points_ratio == 0 || redemption_rate == 0 {
        Err(LedgerError::InvalidRate)
    } else if !s.merchants.contains_key(wallet) {
        Err(LedgerError::NotRegistered)
    } else {
        Ok(())
    }
}

/// The state after an update of rates: on success the record has the new rates and is
/// otherwise as it was.
pub open spec fn after_update_rates(
    s: LedgerState,
    wallet: Seq<char>,
    points_ratio: u32,
    redemption_rate: u32,
    authorized: bool,
) -> LedgerState {
    if update_rates_outcome(s, wallet, points_ratio, redemption_rate, authorized) is Ok {
        LedgerState {
            merchants: s.merchants.insert(
                wallet,
                MerchantRecord { points_ratio, redemption_rate, ..s.merchants[wallet] },
            ),
            balances: s.balances,
        }
    } else {
        s
    }
}

} // verus!

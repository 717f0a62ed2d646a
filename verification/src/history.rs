//! Sequences of calls on a ledger.

use vstd::prelude::*;
use crate::error::LedgerError;
use crate::model::{
    after_payment, after_redeem, after_register, after_update_rates, payment_outcome,
    redeem_outcome, register_outcome, update_rates_outcome, LedgerState,
};

verus! {

/// One call of an operation that can change the ledger, with its arguments and with
/// what the outside told it.
pub enum Call {
    Register {
        wallet: Seq<char>,
        name: Seq<char>,
        points_ratio: u32,
        redemption_rate: u32,
        authorized: bool,
    },
    Payment {
        merchant: Seq<char>,
        customer: Seq<char>,
        token: Seq<char>,
        amount: int,
        authorized: bool,
        settled: bool,
    },
    Redeem {
        merchant: Seq<char>,
        customer: Seq<char>,
        token: Seq<char>,
        points_amount: u32,
        authorized: bool,
        settled: bool,
    },
    UpdateRates { wallet: Seq<char>, points_ratio: u32, redemption_rate: u32, authorized: bool },
}

impl Call {
    /// Whether the wallet that must approve the call did so.
    pub open spec fn authorized(self) -> bool {
        match self {
            Call::Register { authorized, .. } => authorized,
            Call::Payment { authorized, .. } => authorized,
            Call::Redeem { authorized, .. } => authorized,
            Call::UpdateRates { authorized, .. } => authorized,
        }
    }
}

/// The error with which `call` fails in state `s`, if it fails.
pub open spec fn refusal(s: LedgerState, call: Call) -> Option<LedgerError> {
    match call {
        Call::Register { wallet, authorized, .. } => match register_outcome(s, wallet, authorized) {
            Ok(_) => None,
            Err(refusal) => Some(refusal),
        },
        Call::Payment { merchant, customer, token, amount, authorized, settled } => match payment_outcome(
            s,
            merchant,
            customer,
            token,
            amount,
            authorized,
            settled,
        ) {
            Ok(_) => None,
            Err(refusal) => Some(refusal),
        },
        Call::Redeem { merchant, customer, token, points_amount, authorized, settled } => match redeem_outcome(
            s,
            merchant,
            customer,
            token,
            points_amount,
            authorized,
            settled,
        ) {
            Ok(_) => None,
            Err(refusal) => Some(refusal),
        },
        Call::UpdateRates { wallet, points_ratio, redemption_rate, authorized } => match update_rates_outcome(
            s,
            wallet,
            points_ratio,
            redemption_rate,
            authorized,
        ) {
            Ok(_) => None,
            Err(refusal) => Some(refusal),
        },
    }
}

/// The state after `call` in state `s`.
pub open spec fn step(s: LedgerState, call: Call) -> LedgerState {
    match call {
        Call::Register { wallet, name, points_ratio, redemption_rate, authorized } => after_register(
            s,
            wallet,
            name,
            points_ratio,
            redemption_rate,
            authorized,
        ),
        Call::Payment { merchant, customer, token, amount, authorized, settled } => after_payment(
            s,
            merchant,
            customer,
            token,
            amount,
            authorized,
            settled,
        ),
        Call::Redeem { merchant, customer, token, points_amount, authorized, settled } => after_redeem(
            s,
            merchant,
            customer,
            token,
            points_amount,
            authorized,
            settled,
        ),
        Call::UpdateRates { wallet, points_ratio, redemption_rate, authorized } => after_update_rates(
            s,
            wallet,
            points_ratio,
            redemption_rate,
            authorized,
        ),
    }
}

/// The state after `calls`, made in order from state `s`.
pub open spec fn run(s: LedgerState, calls: Seq<Call>) -> LedgerState
    decreases calls.len(),
{
    if calls.len() == 0 {
        s
    } else {
        step(run(s, calls.drop_last()), calls.last())
    }
}

/// The points that `call` in state `s` issues to `customer`: those of a payment by that
/// customer that succeeds.
pub open spec fn issued_to(s: LedgerState, call: Call, customer: Seq<char>) -> int {
    match call {
        Call::Payment { merchant, customer: payer, token, amount, authorized, settled } => match payment_outcome(
            s,
            merchant,
            payer,
            token,
            amount,
            authorized,
            settled,
        ) {
            Ok(points) if payer == customer => points as int,
            _ => 0,
        },
        _ => 0,
    }
}

/// The points that `call` in state `s` redeems for `customer`: those of a redemption by
/// that customer that succeeds.
pub open spec fn redeemed_by(s: LedgerState, call: Call, customer: Seq<char>) -> int {
    match call {
        Call::Redeem { merchant, customer: holder, token, points_amount, authorized, settled } => if holder
            == customer && redeem_outcome(
            s,
            merchant,
            holder,
            token,
            points_amount,
            authorized,
            settled,
        ) is Ok {
            points_amount as int
        } else {
            0
        },
        _ => 0,
    }
}

/// The sum of the points issued to `customer` by `calls`, made in order from state `s`.
pub open spec fn total_issued_to(s: LedgerState, calls: Seq<Call>, customer: Seq<char>) -> int
    decreases calls.len(),
{
    if calls.len() == 0 {
        0
    } else {
        total_issued_to(s, calls.drop_last(), customer) + issued_to(
            run(s, calls.drop_last()),
            calls.last(),
            customer,
        )
    }
}

/// The sum of the points redeemed for `customer` by `calls`, made in order from state `s`.
pub open spec fn total_redeemed_by(s: LedgerState, calls: Seq<Call>, customer: Seq<char>) -> int
    decreases calls.len(),
{
    if calls.len() == 0 {
        0
    } else {
        total_redeemed_by(s, calls.drop_last(), customer) + redeemed_by(
            run(s, calls.drop_last()),
            calls.last(),
            customer,
        )
    }
}

} // verus!

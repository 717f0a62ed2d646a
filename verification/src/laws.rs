//! What holds of every ledger, whatever calls are made on it.

use vstd::prelude::*;
use crate::error::LedgerError;
use crate::history::{refusal, run, step, total_issued_to, total_redeemed_by, Call};
use crate::model::{
    after_redeem, after_register, redeem_outcome, redemption_order, redemption_reaches_reward,
    register_outcome, reward_for, LedgerState, TransferOrder,
};

verus! {

/// A registered merchant stays registered under the same name and wallet, and its
/// counter of issued points never goes down, whatever calls follow.
pub proof fn issued_points_never_decrease(s: LedgerState, calls: Seq<Call>, wallet: Seq<char>)
    requires
        s.merchants.contains_key(wallet),
    ensures
        run(s, calls).merchants.contains_key(wallet),
        run(s, calls).merchants[wallet].total_points_issued >= s.merchants[wallet].total_points_issued,
        run(s, calls).merchants[wallet].name == s.merchants[wallet].name,
        run(s, calls).merchants[wallet].wallet == s.merchants[wallet].wallet,
    decreases calls.len(),
{
    if calls.len() > 0 {
        issued_points_never_decrease(s, calls.drop_last(), wallet);
    }
}

/// A wallet is registered once: after a registration that succeeds, and whatever calls
/// follow it, every further registration of the same wallet fails as already
/// registered, whatever it offers and whoever approves it, and changes nothing.
pub proof fn registration_is_write_once(
    s: LedgerState,
    wallet: Seq<char>,
    name: Seq<char>,
    points_ratio: u32,
    redemption_rate: u32,
    authorized: bool,
    later: Seq<Call>,
    other_name: Seq<char>,
    other_points_ratio: u32,
    other_redemption_rate: u32,
    other_authorized: bool,
)
    requires
        register_outcome(s, wallet, authorized) is Ok,
    ensures
        ({
            let first = after_register(s, wallet, name, points_ratio, redemption_rate, authorized);
            let now = run(first, later);
            &&& register_outcome(now, wallet, other_authorized) == Err::<(), _>(
                LedgerError::AlreadyRegistered,
            )
            &&& after_register(
                now,
                wallet,
                other_name,
                other_points_ratio,
                other_redemption_rate,
                other_authorized,
            ) == now
        }),
{
    let first = after_register(s, wallet, name, points_ratio, redemption_rate, authorized);
    issued_points_never_decrease(first, later, wallet);
}

/// Points are conserved: after any calls, a customer's points are those held before,
/// plus the points that the payments among the calls issued to the customer, minus the
/// points that the redemptions among them took. On a ledger that starts empty the
/// balance is the sum of what was issued minus the sum of what was redeemed.
pub proof fn points_are_conserved(s: LedgerState, calls: Seq<Call>, customer: Seq<char>)
    ensures
        run(s, calls).points(customer) == s.points(customer) + total_issued_to(s, calls, customer)
            - total_redeemed_by(s, calls, customer),
    decreases calls.len(),
{
    if calls.len() > 0 {
        points_are_conserved(s, calls.drop_last(), customer);
    }
}

/// Nothing happens without approval: a call that the wallet in charge did not approve
/// fails as unauthorized and changes nothing. The one call that is answered otherwise is
/// the registration of a wallet that is registered already.
pub proof fn unapproved_calls_change_nothing(s: LedgerState, call: Call)
    requires
        !call.authorized(),
        !(call is Register && s.merchants.contains_key(call->Register_wallet)),
    ensures
        refusal(s, call) == Some(LedgerError::Unauthorized),
        step(s, call) == s,
{
}

/// A redemption pays the quotient of the points by the merchant's rate, rounded down:
/// where it succeeds, the transfer it ordered is of that reward, which is positive,
/// from the merchant to the customer; and where that quotient is zero, a redemption that
/// gets as far as the reward fails for it and changes nothing.
pub proof fn redemption_pays_the_quotient(
    s: LedgerState,
    merchant: Seq<char>,
    customer: Seq<char>,
    token: Seq<char>,
    points_amount: u32,
    authorized: bool,
    settled: bool,
)
    requires
        redemption_reaches_reward(s, merchant, customer, points_amount, authorized),
        s.merchants[merchant].redemption_rate != 0,
    ensures
        ({
            let rate = s.merchants[merchant].redemption_rate;
            let reward = reward_for(points_amount, rate);
            &&& reward * rate <= points_amount < (reward + 1) * rate
            &&& reward == 0 ==> {
                &&& redeem_outcome(s, merchant, customer, token, points_amount, authorized, settled)
                    == Err::<(), _>(LedgerError::ZeroReward)
                &&& after_redeem(s, merchant, customer, token, points_amount, authorized, settled)
                    == s
            }
            &&& reward != 0 ==> {
                &&& redemption_order(s, merchant, customer, token, points_amount, authorized)
                    == Ok::<_, LedgerError>(
                    TransferOrder { token, from: merchant, to: customer, amount: reward },
                )
                &&& redeem_outcome(s, merchant, customer, token, points_amount, authorized, settled)
                    is Ok <==> settled
            }
        }),
{
    let rate = s.merchants[merchant].redemption_rate as int;
    let points = points_amount as int;
    assert((points / rate) * rate <= points < (points / rate + 1) * rate) by (nonlinear_arith)
        requires
            rate > 0,
            points >= 0,
    ;
}

} // verus!

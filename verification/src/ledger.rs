//! The ledger and its operations.

use vstd::prelude::*;
use crate::error::LedgerError;
use crate::merchant::Merchant;
use crate::model::{
    after_payment, after_redeem, after_register, after_update_rates, payment_order,
    payment_outcome, points_for, redeem_outcome, redemption_order, register_outcome, reward_for,
    update_rates_outcome, LedgerState, TransferOrder,
};
use crate::store::Store;
use crate::transfer::Transfer;
use crate::wallet::Wallet;

verus! {

/// The points minted for a payment of `amount` at `points_ratio` points per unit, or
/// nothing where they are no points amount.
pub fn points_for_payment(amount: i128, points_ratio: u32) -> (points: Option<u32>)
    ensures
        match points {
            Some(points) => points == points_for(amount as int, points_ratio as int),
            None => !(0 <= points_for(amount as int, points_ratio as int) <= u32::MAX),
        },
{
    if points_ratio == 0 {
        Some(0)
    } else if amount < 0 {
        assert(amount * points_ratio < 0) by (nonlinear_arith)
            requires
                amount < 0,
                points_ratio > 0,
        ;
        None
    } else if amount > u32::MAX as i128 {
        assert(amount * points_ratio > u32::MAX) by (nonlinear_arith)
            requires
                amount > u32::MAX,
                points_ratio >= 1,
        ;
        None
    } else {
        assert(0 <= amount * points_ratio <= u32::MAX * u32::MAX) by (nonlinear_arith)
            requires
                0 <= amount <= u32::MAX,
                0 <= points_ratio <= u32::MAX,
        ;
        let product: i128 = amount * (points_ratio as i128);
        if product > u32::MAX as i128 {
            None
        } else {
            Some(product as u32)
        }
    }
}

/// The reward for `points_amount` points at `redemption_rate` points per unit, or
/// nothing at a rate of zero.
pub fn reward_for_points(points_amount: u32, redemption_rate: u32) -> (reward: Option<u32>)
    ensures
        match reward {
            Some(reward) => redemption_rate != 0 && reward == reward_for(
                points_amount,
                redemption_rate,
            ),
            None => redemption_rate == 0,
        },
{
    if redemption_rate == 0 {
        None
    } else {
        Some(points_amount / redemption_rate)
    }
}

/// A loyalty-points ledger: the registry of merchants and the point balances of their
/// customers.
///
/// The ledger checks no proof of control and moves no tokens. Each operation is told
/// whether the wallet that must approve it did so, and the two that need a token
/// transfer say which (`payment_transfer`, `redemption_transfer`) and are told whether
/// it was settled. An operation that fails leaves the ledger as it was.
pub struct MerchPay {
    merchants: Store<Merchant>,
    balances: Store<u32>,
}

impl View for MerchPay {
    type V = LedgerState;

    closed spec fn view(&self) -> LedgerState {
        LedgerState { merchants: self.merchants@, balances: self.balances@ }
    }
}

impl MerchPay {
    /// Every merchant record is kept under the wallet that it names.
    #[verifier::type_invariant]
    spec fn keyed_by_wallet(self) -> bool {
        forall|wallet: Seq<char>| #[trigger]
            self.merchants@.contains_key(wallet) ==> self.merchants@[wallet].wallet == wallet
    }

    /// A ledger in which nobody is registered and nobody holds points.
    pub fn new() -> (ledger: MerchPay)
        ensures
            ledger@ == LedgerState::empty(),
    {
        MerchPay { merchants: Store::new(), balances: Store::new() }
    }

    /// Writes `record` under its wallet, in place of the record that wallet had, if any.
    pub fn restore_merchant(&mut self, record: Merchant)
        ensures
            final(self)@ == old(self)@.with_merchant(record@),
    {
        proof {
            use_type_invariant(&*self);
        }
        let key = record.wallet.clone();
        let mut merchants = Store::new();
        std::mem::swap(&mut merchants, &mut self.merchants);
        merchants.set(key, record);
        self.merchants = merchants;
    }

    /// Writes `balance` as the balance of `customer_wallet`, in place of the one it had,
    /// if any.
    pub fn restore_points(&mut self, customer_wallet: Wallet, balance: u32)
        ensures
            final(self)@ == old(self)@.with_points(customer_wallet@, balance),
    {
        proof {
            use_type_invariant(&*self);
        }
        let mut balances = Store::new();
        std::mem::swap(&mut balances, &mut self.balances);
        balances.set(customer_wallet, balance);
        self.balances = balances;
    }

    /// Registers a merchant under `merchant_wallet`, with no points issued yet.
    /// `authorized` says whether the merchant's wallet approved the call.
    pub fn register_merchant(
        &mut self,
        merchant_wallet: Wallet,
        name: String,
        points_ratio: u32,
        redemption_rate: u32,
        authorized: bool,
    ) -> (result: Result<(), LedgerError>)
        ensures
            result == register_outcome(old(self)@, merchant_wallet@, authorized),
            final(self)@ == after_register(
                old(self)@,
                merchant_wallet@,
                name@,
                points_ratio,
                redemption_rate,
                authorized,
            ),
    {
        if self.merchants.has(&merchant_wallet) {
            return Err(LedgerError::AlreadyRegistered);
        }
        if !authorized {
            return Err(LedgerError::Unauthorized);
        }
        self.restore_merchant(
            Merchant {
                name,
                wallet: merchant_wallet,
                points_ratio,
                total_points_issued: 0,
                redemption_rate,
            },
        );
        Ok(())
    }

    /// The points of `customer_wallet`: zero for a wallet that has no balance record.
    pub fn get_points(&self, customer_wallet: Wallet) -> (points: u32)
        ensures
            points == self@.points(customer_wallet@),
    {
        match self.balances.get(&customer_wallet) {
            Some(balance) => *balance,
            None => 0,
        }
    }

    /// The record of the merchant registered under `merchant_wallet`.
    pub fn get_merchant(&self, merchant_wallet: Wallet) -> (result: Result<Merchant, LedgerError>)
        ensures
            match result {
                Ok(record) => self@.merchants.contains_key(merchant_wallet@) && record@
                    == self@.merchants[merchant_wallet@] && record@.wallet == merchant_wallet@,
                Err(refusal) => !self@.merchants.contains_key(merchant_wallet@) && refusal
                    == LedgerError::NotRegistered,
            },
    {
        proof {
            use_type_invariant(self);
        }
        match self.merchants.get(&merchant_wallet) {
            Some(record) => Ok(record.clone()),
            None => Err(LedgerError::NotRegistered),
        }
    }

    /// The record of the merchant that a payment is for, and the transfer it needs.
    fn plan_payment(
        &self,
        merchant_wallet: Wallet,
        customer_wallet: Wallet,
        token_address: Wallet,
        payment_amount: i128,
        authorized: bool,
    ) -> (result: Result<(Merchant, Transfer), LedgerError>)
        ensures
            match result {
                Ok((record, transfer)) => {
                    &&& payment_order(
                        self@,
                        merchant_wallet@,
                        customer_wallet@,
                        token_address@,
                        payment_amount as int,
                        authorized,
                    ) == Ok::<_, LedgerError>(transfer@)
                    &&& record@ == self@.merchants[merchant_wallet@]
                    &&& record@.wallet == merchant_wallet@
                },
                Err(refusal) => payment_order(
                    self@,
                    merchant_wallet@,
                    customer_wallet@,
                    token_address@,
                    payment_amount as int,
                    authorized,
                ) == Err::<TransferOrder, _>(refusal),
            },
    {
        proof {
            use_type_invariant(self);
        }
        if !authorized {
            return Err(LedgerError::Unauthorized);
        }
        let record = match self.merchants.get(&merchant_wallet) {
            Some(record) => record.clone(),
            None => {
                return Err(LedgerError::NotRegistered);
            },
        };
        let transfer = Transfer {
            token: token_address,
            from: customer_wallet,
            to: merchant_wallet,
            amount: payment_amount,
        };
        Ok((record, transfer))
    }

    /// The transfer that a payment of `payment_amount` needs: that amount of the asset
    /// `token_address`, from the customer to the merchant. `authorized` says whether the
    /// customer's wallet approved the call.
    pub fn payment_transfer(
        &self,
        merchant_wallet: Wallet,
        customer_wallet: Wallet,
        token_address: Wallet,
        payment_amount: i128,
        authorized: bool,
    ) -> (result: Result<Transfer, LedgerError>)
        ensures
            match result {
                Ok(transfer) => payment_order(
                    self@,
                    merchant_wallet@,
                    customer_wallet@,
                    token_address@,
                    payment_amount as int,
                    authorized,
                ) == Ok::<_, LedgerError>(transfer@),
                Err(refusal) => payment_order(
                    self@,
                    merchant_wallet@,
                    customer_wallet@,
                    token_address@,
                    payment_amount as int,
                    authorized,
                ) == Err::<TransferOrder, _>(refusal),
            },
    {
        match self.plan_payment(
            merchant_wallet,
            customer_wallet,
            token_address,
            payment_amount,
            authorized,
        ) {
            Ok((_, transfer)) => Ok(transfer),
            Err(refusal) => Err(refusal),
        }
    }

    /// Books a payment of `payment_amount` from the customer to the merchant: mints the
    /// points for it, adds them to the merchant's counter and to the customer's balance,
    /// and returns them. `authorized` says whether the customer's wallet approved the
    /// call, `settled` whether the transfer that `payment_transfer` orders for the same
    /// call was carried out.
    pub fn process_payment(
        &mut self,
        merchant_wallet: Wallet,
        customer_wallet: Wallet,
        token_address: Wallet,
        payment_amount: i128,
        authorized: bool,
        settled: bool,
    ) -> (result: Result<u32, LedgerError>)
        ensures
            result == payment_outcome(
                old(self)@,
                merchant_wallet@,
                customer_wallet@,
                token_address@,
                payment_amount as int,
                authorized,
                settled,
            ),
            final(self)@ == after_payment(
                old(self)@,
                merchant_wallet@,
                customer_wallet@,
                token_address@,
                payment_amount as int,
                authorized,
                settled,
            ),
    {
        let (record, transfer) = match self.plan_payment(
            merchant_wallet,
            customer_wallet,
            token_address,
            payment_amount,
            authorized,
        ) {
            Ok(plan) => plan,
            Err(refusal) => {
                return Err(refusal);
            },
        };
        if !settled {
            return Err(LedgerError::TransferRejected);
        }
        let points = match points_for_payment(transfer.amount, record.points_ratio) {
            Some(points) => points,
            None => {
                return Err(LedgerError::ArithmeticOverflow);
            },
        };
        let total = match record.total_points_issued.checked_add(points) {
            Some(total) => total,
            None => {
                return Err(LedgerError::ArithmeticOverflow);
            },
        };
        let balance = match self.get_points(transfer.from.clone()).checked_add(points) {
            Some(balance) => balance,
            None => {
                return Err(LedgerError::ArithmeticOverflow);
            },
        };
        self.restore_merchant(Merchant { total_points_issued: total, ..record });
        self.restore_points(transfer.from, balance);
        Ok(points)
    }

    /// The balance that a redemption draws on, and the transfer it needs.
    fn plan_redemption(
        &self,
        merchant_wallet: Wallet,
        customer_wallet: Wallet,
        points_amount: u32,
        usdc_token: Wallet,
        authorized: bool,
    ) -> (result: Result<(u32, Transfer), LedgerError>)
        ensures
            match result {
                Ok((balance, transfer)) => {
                    &&& redemption_order(
                        self@,
                        merchant_wallet@,
                        customer_wallet@,
                        usdc_token@,
                        points_amount,
                        authorized,
                    ) == Ok::<_, LedgerError>(transfer@)
                    &&& balance == self@.balances[customer_wallet@]
                },
                Err(refusal) => redemption_order(
                    self@,
                    merchant_wallet@,
                    customer_wallet@,
                    usdc_token@,
                    points_amount,
                    authorized,
                ) == Err::<TransferOrder, _>(refusal),
            },
    {
        if !authorized {
            return Err(LedgerError::Unauthorized);
        }
        let redemption_rate = match self.merchants.get(&merchant_wallet) {
            Some(record) => record.redemption_rate,
            None => {
                return Err(LedgerError::NotRegistered);
            },
        };
        let balance = match self.balances.get(&customer_wallet) {
            Some(balance) => *balance,
            None => {
                return Err(LedgerError::NoPointsFound);
            },
        };
        if balance < points_amount {
            return Err(LedgerError::InsufficientPoints);
        }
        let reward = match reward_for_points(points_amount, redemption_rate) {
            Some(reward) => reward,
            None => {
                return Err(LedgerError::InvalidRate);
            },
        };
        if reward == 0 {
            return Err(LedgerError::ZeroReward);
        }
        let transfer = Transfer {
            token: usdc_token,
            from: merchant_wallet,
            to: customer_wallet,
            amount: reward as i128,
        };
        Ok((balance, transfer))
    }

    /// The transfer that a redemption of `points_amount` points needs: the reward, in
    /// the asset `usdc_token`, from the merchant to the customer. `authorized` says
    /// whether the customer's wallet approved the call.
    pub fn redemption_transfer(
        &self,
        merchant_wallet: Wallet,
        customer_wallet: Wallet,
        points_amount: u32,
        usdc_token: Wallet,
        authorized: bool,
    ) -> (result: Result<Transfer, LedgerError>)
        ensures
            match result {
                Ok(transfer) => redemption_order(
                    self@,
                    merchant_wallet@,
                    customer_wallet@,
                    usdc_token@,
                    points_amount,
                    authorized,
                ) == Ok::<_, LedgerError>(transfer@),
                Err(refusal) => redemption_order(
                    self@,
                    merchant_wallet@,
                    customer_wallet@,
                    usdc_token@,
                    points_amount,
                    authorized,
                ) == Err::<TransferOrder, _>(refusal),
            },
    {
        match self.plan_redemption(
            merchant_wallet,
            customer_wallet,
            points_amount,
            usdc_token,
            authorized,
        ) {
            Ok((_, transfer)) => Ok(transfer),
            Err(refusal) => Err(refusal),
        }
    }

    /// Books a redemption of `points_amount` points: takes them off the customer's
    /// balance. `authorized` says whether the customer's wallet approved the call,
    /// `settled` whether the transfer that `redemption_transfer` orders for the same
    /// call was carried out.
    pub fn redeem(
        &mut self,
        merchant_wallet: Wallet,
        customer_wallet: Wallet,
        points_amount: u32,
        usdc_token: Wallet,
        authorized: bool,
        settled: bool,
    ) -> (result: Result<(), LedgerError>)
        ensures
            result == redeem_outcome(
                old(self)@,
                merchant_wallet@,
                customer_wallet@,
                usdc_token@,
                points_amount,
                authorized,
                settled,
            ),
            final(self)@ == after_redeem(
                old(self)@,
                merchant_wallet@,
                customer_wallet@,
                usdc_token@,
                points_amount,
                authorized,
                settled,
            ),
    {
        let (balance, transfer) = match self.plan_redemption(
            merchant_wallet,
            customer_wallet,
            points_amount,
            usdc_token,
            authorized,
        ) {
            Ok(plan) => plan,
            Err(refusal) => {
                return Err(refusal);
            },
        };
        if !settled {
            return Err(LedgerError::TransferRejected);
        }
        self.restore_points(transfer.to, balance - points_amount);
        Ok(())
    }

    /// Gives the merchant registered under `merchant_wallet` new rates, which must both
    /// be positive. `authorized` says whether the merchant's wallet approved the call.
    pub fn update_rates(
        &mut self,
        merchant_wallet: Wallet,
        new_points_ratio: u32,
        new_redemption_rate: u32,
        authorized: bool,
    ) -> (result: Result<(), LedgerError>)
        ensures
            result == update_rates_outcome(
                old(self)@,
                merchant_wallet@,
                new_points_ratio,
                new_redemption_rate,
                authorized,
            ),
            final(self)@ == after_update_rates(
                old(self)@,
                merchant_wallet@,
                new_points_ratio,
                new_redemption_rate,
                authorized,
            ),
    {
        proof {
            use_type_invariant(&*self);
        }
        if !authorized {
            return Err(LedgerError::Unauthorized);
        }
        if new_points_ratio == 0 || new_redemption_rate == 0 {
            return Err(LedgerError::InvalidRate);
        }
        let record = match self.merchants.get(&merchant_wallet) {
            Some(record) => record.clone(),
            None => {
                return Err(LedgerError::NotRegistered);
            },
        };
        self.restore_merchant(
            Merchant { points_ratio: new_points_ratio, redemption_rate: new_redemption_rate, ..record },
        );
        Ok(())
    }
}

} // verus!

use merchpay::error::LedgerError;
use merchpay::ledger::{reward_for_points, MerchPay};
use merchpay::wallet::Wallet;

fn cafe() -> Wallet {
    Wallet::new("GCAFE")
}

fn guest() -> Wallet {
    Wallet::new("GGUEST")
}

fn coin() -> Wallet {
    Wallet::new("CCOIN")
}

/// A ledger with one merchant at the given redemption rate and a guest holding `points`.
fn ledger_with_points(redemption_rate: u32, points: u32) -> MerchPay {
    let mut ledger = MerchPay::new();
    assert_eq!(ledger.register_merchant(cafe(), String::from("Cafe"), 1, redemption_rate, true), Ok(()));
    assert_eq!(ledger.process_payment(cafe(), guest(), coin(), points as i128, true, true), Ok(points));
    ledger
}

#[test]
fn reward_is_the_quotient_rounded_down() {
    assert_eq!(reward_for_points(25, 5), Some(5));
    assert_eq!(reward_for_points(5, 10), Some(0));
    assert_eq!(reward_for_points(17, 5), Some(3));
    assert_eq!(reward_for_points(19, 5), Some(3));
    assert_eq!(reward_for_points(20, 5), Some(4));
    assert_eq!(reward_for_points(0, 5), Some(0));
    assert_eq!(reward_for_points(4_294_967_295, 1), Some(4_294_967_295));
    assert_eq!(reward_for_points(4_294_967_295, 4_294_967_295), Some(1));
    assert_eq!(reward_for_points(4_294_967_294, 4_294_967_295), Some(0));
}

#[test]
fn reward_at_rate_zero_is_none() {
    assert_eq!(reward_for_points(25, 0), None);
    assert_eq!(reward_for_points(0, 0), None);
}

#[test]
fn redemption_orders_the_reward_and_takes_all_points_offered() {
    let mut ledger = ledger_with_points(5, 40);
    let order = ledger.redemption_transfer(cafe(), guest(), 17, coin(), true).unwrap();
    assert_eq!(order.amount, 3);
    assert_eq!(order.from, cafe());
    assert_eq!(order.to, guest());
    assert_eq!(order.token, coin());
    assert_eq!(ledger.get_points(guest()), 40);
    assert_eq!(ledger.redeem(cafe(), guest(), 17, coin(), true, true), Ok(()));
    assert_eq!(ledger.get_points(guest()), 23);
}

#[test]
fn whole_balance_can_be_redeemed() {
    let mut ledger = ledger_with_points(5, 40);
    assert_eq!(ledger.redeem(cafe(), guest(), 40, coin(), true, true), Ok(()));
    assert_eq!(ledger.get_points(guest()), 0);
    assert_eq!(
        ledger.redeem(cafe(), guest(), 5, coin(), true, true),
        Err(LedgerError::InsufficientPoints)
    );
    assert_eq!(
        ledger.redeem(cafe(), guest(), 0, coin(), true, true),
        Err(LedgerError::ZeroReward)
    );
}

#[test]
fn redemption_without_approval_changes_nothing() {
    let mut ledger = ledger_with_points(5, 40);
    assert_eq!(
        ledger.redemption_transfer(cafe(), guest(), 10, coin(), false).unwrap_err(),
        LedgerError::Unauthorized
    );
    assert_eq!(
        ledger.redeem(cafe(), guest(), 10, coin(), false, true),
        Err(LedgerError::Unauthorized)
    );
    assert_eq!(ledger.get_points(guest()), 40);
}

#[test]
fn redemption_at_an_unregistered_merchant_fails() {
    let mut ledger = ledger_with_points(5, 40);
    assert_eq!(
        ledger.redeem(Wallet::new("GNOBODY"), guest(), 10, coin(), true, true),
        Err(LedgerError::NotRegistered)
    );
    assert_eq!(ledger.get_points(guest()), 40);
}

#[test]
fn redemption_without_a_balance_record_finds_no_points() {
    let mut ledger = ledger_with_points(5, 40);
    let newcomer = Wallet::new("GNEWCOMER");
    assert_eq!(ledger.get_points(newcomer.clone()), 0);
    assert_eq!(
        ledger.redeem(cafe(), newcomer.clone(), 10, coin(), true, true),
        Err(LedgerError::NoPointsFound)
    );
    assert_eq!(
        ledger.redeem(cafe(), newcomer.clone(), 0, coin(), true, true),
        Err(LedgerError::NoPointsFound)
    );
    assert_eq!(ledger.get_points(newcomer), 0);
}

#[test]
fn redemption_of_more_than_the_balance_fails() {
    let mut ledger = ledger_with_points(5, 40);
    assert_eq!(
        ledger.redemption_transfer(cafe(), guest(), 41, coin(), true).unwrap_err(),
        LedgerError::InsufficientPoints
    );
    assert_eq!(
        ledger.redeem(cafe(), guest(), 41, coin(), true, true),
        Err(LedgerError::InsufficientPoints)
    );
    assert_eq!(ledger.get_points(guest()), 40);
}

#[test]
fn redemption_worth_nothing_fails_and_keeps_the_balance() {
    let mut ledger = ledger_with_points(5, 40);
    assert_eq!(
        ledger.redeem(cafe(), guest(), 4, coin(), true, true),
        Err(LedgerError::ZeroReward)
    );
    assert_eq!(
        ledger.redeem(cafe(), guest(), 4, coin(), true, false),
        Err(LedgerError::ZeroReward)
    );
    assert_eq!(ledger.get_points(guest()), 40);
    assert_eq!(ledger.redeem(cafe(), guest(), 5, coin(), true, true), Ok(()));
    assert_eq!(ledger.get_points(guest()), 35);
}

#[test]
fn rejected_transfer_debits_no_points() {
    let mut ledger = ledger_with_points(5, 40);
    assert_eq!(
        ledger.redeem(cafe(), guest(), 25, coin(), true, false),
        Err(LedgerError::TransferRejected)
    );
    assert_eq!(ledger.get_points(guest()), 40);
}

#[test]
fn redemption_at_rate_zero_is_an_invalid_rate() {
    let mut ledger = ledger_with_points(0, 40);
    assert_eq!(
        ledger.redemption_transfer(cafe(), guest(), 10, coin(), true).unwrap_err(),
        LedgerError::InvalidRate
    );
    assert_eq!(
        ledger.redeem(cafe(), guest(), 10, coin(), true, true),
        Err(LedgerError::InvalidRate)
    );
    assert_eq!(
        ledger.redeem(cafe(), guest(), 41, coin(), true, true),
        Err(LedgerError::InsufficientPoints)
    );
    assert_eq!(ledger.get_points(guest()), 40);
}

#[test]
fn points_of_one_merchant_redeem_at_another() {
    let mut ledger = ledger_with_points(5, 40);
    let rival = Wallet::new("GRIVAL");
    assert_eq!(ledger.register_merchant(rival.clone(), String::from("Rival"), 1, 8, true), Ok(()));
    let order = ledger.redemption_transfer(rival.clone(), guest(), 40, coin(), true).unwrap();
    assert_eq!(order.from, rival);
    assert_eq!(order.amount, 5);
    assert_eq!(ledger.redeem(rival.clone(), guest(), 40, coin(), true, true), Ok(()));
    assert_eq!(ledger.get_points(guest()), 0);
    assert_eq!(ledger.get_merchant(rival).unwrap().total_points_issued, 0);
    assert_eq!(ledger.get_merchant(cafe()).unwrap().total_points_issued, 40);
}

#[test]
fn balance_is_what_was_issued_less_what_was_redeemed() {
    let mut ledger = MerchPay::new();
    assert_eq!(ledger.register_merchant(cafe(), String::from("Cafe"), 7, 3, true), Ok(()));
    let mut issued: u64 = 0;
    let mut redeemed: u64 = 0;
    let payments: [(i128, bool, bool); 5] =
        [(4, true, true), (9, true, false), (2, false, true), (1, true, true), (-6, true, true)];
    let redemptions: [(u32, bool, bool); 5] =
        [(6, true, true), (2, true, true), (10, true, false), (3, false, true), (500, true, true)];
    for round in 0..5 {
        let (amount, authorized, settled) = payments[round];
        if let Ok(points) = ledger.process_payment(cafe(), guest(), coin(), amount, authorized, settled) {
            issued += points as u64;
        }
        let (points_amount, authorized, settled) = redemptions[round];
        if ledger.redeem(cafe(), guest(), points_amount, coin(), authorized, settled).is_ok() {
            redeemed += points_amount as u64;
        }
        assert_eq!(ledger.get_points(guest()) as u64, issued - redeemed);
    }
    assert_eq!(issued, 35);
    assert_eq!(redeemed, 6);
    assert_eq!(ledger.get_points(guest()), 29);
}

use token_contracts::account::AccountId;
use token_contracts::stable_currency::{Approval, Error, StableCurrency, Transfer};

/// The account that deploys the contract and sends the messages below.
fn alice() -> AccountId {
    AccountId::from([0x1; 32])
}

fn bob() -> AccountId {
    AccountId::from([0x0; 32])
}

fn carol() -> AccountId {
    AccountId::from([0x2; 32])
}

#[test]
fn new_works() {
    let contract = StableCurrency::new(alice(), 777, "rsel".to_string());
    assert_eq!(contract.total_supply(), 777);
    assert_eq!(contract.token_symbol(), "rsel".to_owned());
    assert_ne!(contract.token_symbol(), "sel".to_owned())
}

#[test]
fn balance_works() {
    let contract = StableCurrency::new(alice(), 100, "rsel".to_string());
    assert_eq!(contract.total_supply(), 100);
    assert_eq!(contract.balance_of(AccountId::from([0x1; 32])), 100);
    assert_eq!(contract.balance_of(AccountId::from([0x0; 32])), 0);
}

#[test]
fn transfer_works() {
    let mut contract = StableCurrency::new(alice(), 100, "rsel".to_string());
    assert_eq!(contract.balance_of(AccountId::from([0x1; 32])), 100);
    assert_eq!(
        contract.transfer(alice(), AccountId::from([0x0; 32]), 10),
        Ok(Transfer { from: Some(alice()), to: Some(bob()), value: 10 })
    );
    assert_eq!(contract.balance_of(AccountId::from([0x0; 32])), 10);
    let second = contract.transfer(alice(), AccountId::from([0x0; 32]), 100);
    assert_ne!(second, Ok(Transfer { from: Some(alice()), to: Some(bob()), value: 100 }));
    assert_eq!(second, Err(Error::InsufficientBalance));
}

#[test]
fn transfer_from_works() {
    let mut contract = StableCurrency::new(alice(), 100, "rsel".to_string());
    assert_eq!(contract.balance_of(AccountId::from([0x1; 32])), 100);
    contract.approve(alice(), AccountId::from([0x1; 32]), 20);
    contract
        .transfer_from(alice(), AccountId::from([0x1; 32]), AccountId::from([0x0; 32]), 10)
        .unwrap();
    assert_eq!(contract.balance_of(AccountId::from([0x0; 32])), 10);
}

#[test]
fn onlyowner_works() {
    let contract = StableCurrency::new(alice(), 777, "rsel".to_string());
    assert_eq!(contract.only_owner(AccountId::from([0x1; 32])), Ok(()));
}

#[test]
fn transfer_ownership_works() {
    let mut contract = StableCurrency::new(alice(), 777, "rsel".to_string());
    assert_eq!(contract.only_owner(AccountId::from([0x1; 32])), Ok(()));
    contract.transfer_ownership(alice(), AccountId::from([0x0; 32])).unwrap();
    assert_eq!(contract.only_owner(AccountId::from([0x0; 32])), Ok(()));
}

#[test]
fn inc_subpply_works() {
    let mut contract = StableCurrency::new(alice(), 777, "rsel".to_string());
    contract.inc_supply(alice(), 1000).unwrap();
    assert_eq!(contract.total_supply(), 1777);
    assert_eq!(contract.balance_of(AccountId::from([0x1; 32])), 1777);
}

#[test]
fn dec_subpply_works() {
    let mut contract = StableCurrency::new(alice(), 777, "rsel".to_string());
    contract.dec_supply(alice(), 10).unwrap();
    assert_eq!(contract.total_supply(), 767);
    assert_eq!(contract.balance_of(AccountId::from([0x1; 32])), 767);
}

#[test]
fn createpayment_works() {
    let mut contract = StableCurrency::new(alice(), 100, "rsel".to_string());
    let buyer = AccountId::from([0x1; 32]);
    let seller = AccountId::from([0x0; 32]);
    assert_eq!(contract.balance_of(buyer), 100);
    assert_eq!(contract.create_payment(buyer, seller, 30), Ok(()));
    assert_eq!(contract.balance_of(buyer), 69);
    assert_eq!(contract.escrow_balance(buyer, seller), 31);
}

#[test]
fn completepaymet_work() {
    let mut contract = StableCurrency::new(alice(), 100, "rsel".to_string());
    let buyer = AccountId::from([0x1; 32]);
    let seller = AccountId::from([0x0; 32]);
    assert_eq!(contract.create_payment(buyer, seller, 30), Ok(()));
    assert_eq!(contract.balance_of(seller), 0);
    assert_eq!(contract.complete_payment(buyer, buyer, seller), Ok(()));
    assert_eq!(contract.balance_of(seller), 30);
    assert_eq!(contract.create_payment(buyer, seller, 30), Ok(()));
    assert_eq!(contract.complete_payment(buyer, buyer, seller), Ok(()));
    assert_eq!(contract.balance_of(seller), 60);
}

#[test]
fn refund_work() {
    let mut contract = StableCurrency::new(alice(), 100, "rsel".to_string());
    let buyer = AccountId::from([0x1; 32]);
    let seller = AccountId::from([0x0; 32]);
    assert_eq!(contract.create_payment(buyer, seller, 30), Ok(()));
    assert_eq!(contract.balance_of(buyer), 69);
    assert_eq!(contract.refund(buyer, buyer, seller), Ok(()));
    assert_eq!(contract.balance_of(buyer), 100);
}

// Tests of this library's own.

#[test]
fn transfer_to_self_keeps_balance() {
    let mut contract = StableCurrency::new(alice(), 100, "rsel".to_string());
    assert!(contract.transfer(alice(), alice(), 40).is_ok());
    assert_eq!(contract.balance_of(alice()), 100);
    assert_eq!(contract.total_supply(), 100);
}

#[test]
fn failed_transfer_changes_nothing() {
    let mut contract = StableCurrency::new(alice(), 100, "rsel".to_string());
    assert_eq!(contract.transfer(bob(), carol(), 1), Err(Error::InsufficientBalance));
    assert_eq!(contract.balance_of(bob()), 0);
    assert_eq!(contract.balance_of(carol()), 0);
    assert_eq!(contract.balance_of(alice()), 100);
}

#[test]
fn transfer_of_zero_from_empty_account_succeeds() {
    let mut contract = StableCurrency::new(alice(), 100, "rsel".to_string());
    assert_eq!(
        contract.transfer(bob(), carol(), 0),
        Ok(Transfer { from: Some(bob()), to: Some(carol()), value: 0 })
    );
    assert_eq!(contract.balance_of(carol()), 0);
}

#[test]
fn approve_sets_allowance_and_reports_event() {
    let mut contract = StableCurrency::new(alice(), 100, "rsel".to_string());
    let event = contract.approve(alice(), bob(), 25);
    assert_eq!(event, Approval { owner: alice(), spender: bob(), value: 25 });
    assert_eq!(contract.allowance(alice(), bob()), 25);
    assert_eq!(contract.allowance(bob(), alice()), 0);
    contract.approve(alice(), bob(), 7);
    assert_eq!(contract.allowance(alice(), bob()), 7);
}

#[test]
fn transfer_from_spends_allowance() {
    let mut contract = StableCurrency::new(alice(), 100, "rsel".to_string());
    contract.approve(alice(), bob(), 30);
    assert_eq!(
        contract.transfer_from(bob(), alice(), carol(), 12),
        Ok(Transfer { from: Some(alice()), to: Some(carol()), value: 12 })
    );
    assert_eq!(contract.allowance(alice(), bob()), 18);
    assert_eq!(contract.balance_of(alice()), 88);
    assert_eq!(contract.balance_of(carol()), 12);
}

#[test]
fn transfer_from_without_allowance_is_refused() {
    let mut contract = StableCurrency::new(alice(), 100, "rsel".to_string());
    contract.approve(alice(), bob(), 5);
    assert_eq!(contract.transfer_from(bob(), alice(), carol(), 6), Err(Error::InsufficientAllowance));
    assert_eq!(contract.allowance(alice(), bob()), 5);
    assert_eq!(contract.balance_of(alice()), 100);
}

#[test]
fn transfer_from_beyond_balance_is_refused() {
    let mut contract = StableCurrency::new(alice(), 100, "rsel".to_string());
    contract.approve(bob(), alice(), 50);
    assert_eq!(contract.transfer_from(alice(), bob(), carol(), 10), Err(Error::InsufficientBalance));
    assert_eq!(contract.allowance(bob(), alice()), 50);
}

#[test]
fn only_owner_refuses_others() {
    let mut contract = StableCurrency::new(alice(), 100, "rsel".to_string());
    assert_eq!(contract.only_owner(bob()), Err(Error::OnlyOwner));
    assert_eq!(contract.inc_supply(bob(), 5), Err(Error::OnlyOwner));
    assert_eq!(contract.dec_supply(bob(), 5), Err(Error::OnlyOwner));
    assert_eq!(contract.transfer_ownership(bob(), bob()), Err(Error::OnlyOwner));
    assert_eq!(contract.total_supply(), 100);
    assert_eq!(contract.only_owner(alice()), Ok(()));
}

#[test]
fn burning_more_than_owned_is_refused() {
    let mut contract = StableCurrency::new(alice(), 100, "rsel".to_string());
    contract.transfer(alice(), bob(), 60).unwrap();
    assert_eq!(contract.dec_supply(alice(), 50), Err(Error::InsufficientBalance));
    assert_eq!(contract.total_supply(), 100);
    assert_eq!(contract.dec_supply(alice(), 40), Ok(()));
    assert_eq!(contract.total_supply(), 60);
}

#[test]
fn mint_then_burn_restores() {
    let mut contract = StableCurrency::new(alice(), 100, "rsel".to_string());
    contract.inc_supply(alice(), 55).unwrap();
    contract.dec_supply(alice(), 55).unwrap();
    assert_eq!(contract.total_supply(), 100);
    assert_eq!(contract.balance_of(alice()), 100);
}

#[test]
fn fee_is_one_percent_at_least_one() {
    let contract = StableCurrency::new(alice(), 0, "rsel".to_string());
    assert_eq!(contract.cal_fee(0), 1);
    assert_eq!(contract.cal_fee(30), 1);
    assert_eq!(contract.cal_fee(199), 1);
    assert_eq!(contract.cal_fee(250), 2);
    assert_eq!(contract.cal_fee(10_000), 100);
    assert_eq!(contract.cal_fee(u64::MAX), u64::MAX / 100);
}

#[test]
fn payment_beyond_balance_is_refused() {
    let mut contract = StableCurrency::new(alice(), 100, "rsel".to_string());
    assert_eq!(contract.create_payment(alice(), bob(), 100), Err(Error::InsufficientBalance));
    assert_eq!(contract.balance_of(alice()), 100);
    assert_eq!(contract.escrow_balance(alice(), bob()), 0);
}

#[test]
fn payment_whose_fee_overflows_parks_nothing() {
    let mut contract = StableCurrency::new(alice(), 100, "rsel".to_string());
    assert_eq!(contract.create_payment(alice(), bob(), u64::MAX), Ok(()));
    assert_eq!(contract.balance_of(alice()), 100);
    assert_eq!(contract.escrow_balance(alice(), bob()), 0);
}

#[test]
fn payments_accumulate_in_escrow() {
    let mut contract = StableCurrency::new(alice(), 1000, "rsel".to_string());
    contract.create_payment(alice(), bob(), 300).unwrap();
    contract.create_payment(alice(), bob(), 100).unwrap();
    assert_eq!(contract.escrow_balance(alice(), bob()), 303 + 101);
    assert_eq!(contract.balance_of(alice()), 1000 - 404);
}

#[test]
fn completion_by_owner_pays_fee_to_owner() {
    let mut contract = StableCurrency::new(alice(), 10_000, "rsel".to_string());
    contract.transfer(alice(), carol(), 5_000).unwrap();
    contract.create_payment(carol(), bob(), 1_000).unwrap();
    assert_eq!(contract.escrow_balance(carol(), bob()), 1_010);
    assert_eq!(contract.complete_payment(alice(), carol(), bob()), Ok(()));
    assert_eq!(contract.balance_of(bob()), 1_000);
    assert_eq!(contract.balance_of(alice()), 5_010);
    assert_eq!(contract.balance_of(carol()), 5_000 - 1_010);
    assert_eq!(contract.escrow_balance(carol(), bob()), 0);
    assert_eq!(contract.total_supply(), 10_000);
}

#[test]
fn completion_by_stranger_is_refused() {
    let mut contract = StableCurrency::new(alice(), 100, "rsel".to_string());
    contract.create_payment(alice(), bob(), 30).unwrap();
    assert_eq!(contract.complete_payment(carol(), alice(), bob()), Err(Error::NotPermission));
    assert_eq!(contract.complete_payment(bob(), alice(), bob()), Err(Error::NotPermission));
    assert_eq!(contract.escrow_balance(alice(), bob()), 31);
}

#[test]
fn refund_by_seller_and_refusal_for_stranger() {
    let mut contract = StableCurrency::new(alice(), 1_000, "rsel".to_string());
    contract.transfer(alice(), carol(), 500).unwrap();
    contract.create_payment(carol(), bob(), 200).unwrap();
    assert_eq!(contract.balance_of(carol()), 298);
    assert_eq!(contract.refund(carol(), carol(), bob()), Err(Error::NotPermission));
    assert_eq!(contract.refund(bob(), carol(), bob()), Ok(()));
    assert_eq!(contract.balance_of(carol()), 500);
    assert_eq!(contract.escrow_balance(carol(), bob()), 0);
}

#[test]
fn supply_stays_accounted_through_a_session() {
    let mut contract = StableCurrency::new(alice(), 1_000, "rsel".to_string());
    contract.transfer(alice(), bob(), 300).unwrap();
    contract.create_payment(bob(), carol(), 100).unwrap();
    contract.inc_supply(alice(), 50).unwrap();
    contract.complete_payment(bob(), bob(), carol()).unwrap();
    contract.create_payment(alice(), bob(), 10).unwrap();
    let accounted = contract.balance_of(alice())
        + contract.balance_of(bob())
        + contract.balance_of(carol())
        + contract.escrow_balance(bob(), carol())
        + contract.escrow_balance(alice(), bob());
    assert_eq!(accounted, contract.total_supply());
    assert_eq!(contract.total_supply(), 1_050);
}

#[test]
fn tables_have_room() {
    let mut contract = StableCurrency::new(alice(), 100, "rsel".to_string());
    contract.approve(alice(), bob(), 1);
    assert!(contract.balances_have_room(alice(), bob()));
    assert!(contract.allowances_have_room(alice(), bob()));
    assert!(contract.escrow_has_room(alice(), bob()));
}

#[test]
fn symbol_survives_every_message() {
    let mut contract = StableCurrency::new(alice(), 1_000, "rsel".to_string());
    contract.transfer(alice(), bob(), 10).unwrap();
    contract.approve(bob(), carol(), 5);
    contract.inc_supply(alice(), 3).unwrap();
    contract.create_payment(alice(), bob(), 100).unwrap();
    contract.refund(bob(), alice(), bob()).unwrap();
    contract.transfer_ownership(alice(), carol()).unwrap();
    assert_eq!(contract.token_symbol(), "rsel".to_string());
}

#[test]
fn supply_is_initial_plus_mints_less_burns() {
    let mut contract = StableCurrency::new(alice(), 500, "rsel".to_string());
    contract.inc_supply(alice(), 40).unwrap();
    assert_eq!(contract.inc_supply(bob(), 1_000), Err(Error::OnlyOwner));
    contract.dec_supply(alice(), 15).unwrap();
    assert_eq!(contract.dec_supply(alice(), 10_000), Err(Error::InsufficientBalance));
    contract.inc_supply(alice(), 5).unwrap();
    assert_eq!(contract.total_supply(), 500 + 40 + 5 - 15);
}

#[test]
fn allowance_is_last_approval_less_spends() {
    let mut contract = StableCurrency::new(alice(), 1_000, "rsel".to_string());
    contract.approve(alice(), bob(), 100);
    contract.transfer_from(bob(), alice(), carol(), 30).unwrap();
    contract.approve(alice(), bob(), 50);
    contract.transfer_from(bob(), alice(), carol(), 20).unwrap();
    assert_eq!(contract.transfer_from(bob(), alice(), carol(), 31), Err(Error::InsufficientAllowance));
    contract.transfer_from(bob(), alice(), bob(), 5).unwrap();
    assert_eq!(contract.allowance(alice(), bob()), 50 - 20 - 5);
}

#[test]
fn escrow_is_payments_since_settlement() {
    let mut contract = StableCurrency::new(alice(), 10_000, "rsel".to_string());
    contract.create_payment(alice(), bob(), 100).unwrap();
    contract.create_payment(alice(), bob(), 200).unwrap();
    assert_eq!(contract.escrow_balance(alice(), bob()), 101 + 202);
    contract.complete_payment(alice(), alice(), bob()).unwrap();
    assert_eq!(contract.escrow_balance(alice(), bob()), 0);
    contract.create_payment(alice(), bob(), 50).unwrap();
    assert_eq!(contract.complete_payment(carol(), alice(), bob()), Err(Error::NotPermission));
    contract.create_payment(alice(), bob(), 1_000).unwrap();
    assert_eq!(contract.escrow_balance(alice(), bob()), 51 + 1_010);
}

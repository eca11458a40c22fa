//! Every step of the stable currency keeps its supply accounted for: the
//! tokens on all accounts and in all escrows add up to the total supply.
use vstd::prelude::*;
use crate::account::AccountId;
use crate::stable_currency::{payment_amount, StableCurrencyView};
use crate::sums::{
    amount_at,
    lemma_amount_at_most_total,
    lemma_total_of_empty,
    lemma_total_of_insert,
    lemma_total_of_nonneg,
    total_of,
};

verus! {

/// A new contract holds its whole supply on its creator's account.
pub proof fn lemma_created_accounted(creator: AccountId, initial_supply: u128, symbol: Seq<char>)
    ensures
        StableCurrencyView::created(creator, initial_supply, symbol).supply_accounted(),
{
    let v = StableCurrencyView::created(creator, initial_supply, symbol);
    lemma_total_of_empty::<AccountId>();
    lemma_total_of_empty::<(AccountId, AccountId)>();
    lemma_total_of_insert(Map::<AccountId, u128>::empty(), creator, initial_supply);
    assert(v.escrow =~= Map::<(AccountId, AccountId), u128>::empty());
}

/// A transfer keeps the supply accounted for.
pub proof fn lemma_moved_accounted(v: StableCurrencyView, from: AccountId, to: AccountId, value: u128)
    requires
        v.supply_accounted(),
        v.balance_of(from) >= value,
    ensures
        v.moved(from, to, value) is Ok,
        v.moved(from, to, value)->Ok_0.supply_accounted(),
{
    let debited = v.balances.insert(from, (v.balance_of(from) - value) as u128);
    lemma_amount_at_most_total(v.balances, from);
    lemma_total_of_nonneg(v.escrow);
    lemma_total_of_insert(v.balances, from, (v.balance_of(from) - value) as u128);
    lemma_amount_at_most_total(debited, to);
    lemma_total_of_insert(debited, to, (amount_at(debited, to) + value) as u128);
}

/// Minting by the owner adds to its account what it adds to the supply.
pub proof fn lemma_supply_increased_accounted(v: StableCurrencyView, caller: AccountId, value: u128)
    requires
        v.supply_accounted(),
        caller == v.owner,
        v.total_supply + value <= u128::MAX,
    ensures
        v.supply_increased(caller, value) is Ok,
        v.supply_increased(caller, value)->Ok_0.supply_accounted(),
{
    lemma_amount_at_most_total(v.balances, caller);
    lemma_total_of_nonneg(v.escrow);
    lemma_total_of_insert(v.balances, caller, (v.balance_of(caller) + value) as u128);
}

/// Burning by the owner takes from its account what it takes from the supply.
pub proof fn lemma_supply_decreased_accounted(v: StableCurrencyView, caller: AccountId, value: u128)
    requires
        v.supply_accounted(),
        caller == v.owner,
        v.balance_of(caller) >= value,
    ensures
        v.supply_decreased(caller, value) is Ok,
        v.supply_decreased(caller, value)->Ok_0.supply_accounted(),
{
    lemma_amount_at_most_total(v.balances, caller);
    lemma_total_of_nonneg(v.escrow);
    lemma_total_of_insert(v.balances, caller, (v.balance_of(caller) - value) as u128);
}

/// Parking a payment in escrow moves it off the buyer's account.
pub proof fn lemma_payment_created_accounted(
    v: StableCurrencyView,
    buyer: AccountId,
    seller: AccountId,
    value: u64,
)
    requires
        v.supply_accounted(),
        v.balance_of(buyer) >= payment_amount(value),
    ensures
        v.payment_created(buyer, seller, value) is Ok,
        v.payment_created(buyer, seller, value)->Ok_0.supply_accounted(),
{
    let amount = payment_amount(value);
    lemma_amount_at_most_total(v.balances, buyer);
    lemma_amount_at_most_total(v.escrow, (buyer, seller));
    lemma_total_of_insert(v.balances, buyer, (v.balance_of(buyer) - amount) as u128);
    lemma_total_of_insert(v.escrow, (buyer, seller), (v.escrow_of(buyer, seller) + amount) as u128);
}

/// Paying out an escrow splits it between the seller and the caller.
pub proof fn lemma_payment_completed_accounted(
    v: StableCurrencyView,
    caller: AccountId,
    buyer: AccountId,
    seller: AccountId,
)
    requires
        v.supply_accounted(),
        v.may_complete(caller, buyer),
        v.settlement_fee(buyer, seller) <= v.escrow_of(buyer, seller),
    ensures
        v.payment_completed(caller, buyer, seller) is Ok,
        v.payment_completed(caller, buyer, seller)->Ok_0.supply_accounted(),
{
    let held = v.escrow_of(buyer, seller);
    let fee = v.settlement_fee(buyer, seller);
    let paid = v.balances.insert(seller, (held - fee + v.balance_of(seller)) as u128);
    lemma_amount_at_most_total(v.balances, seller);
    lemma_amount_at_most_total(v.escrow, (buyer, seller));
    lemma_total_of_insert(v.balances, seller, (held - fee + v.balance_of(seller)) as u128);
    lemma_amount_at_most_total(paid, caller);
    lemma_total_of_insert(paid, caller, (fee + amount_at(paid, caller)) as u128);
    lemma_total_of_insert(v.escrow, (buyer, seller), 0);
}

/// Refunding an escrow moves it back onto the buyer's account.
pub proof fn lemma_payment_refunded_accounted(
    v: StableCurrencyView,
    caller: AccountId,
    buyer: AccountId,
    seller: AccountId,
)
    requires
        v.supply_accounted(),
        v.may_refund(caller, seller),
    ensures
        v.payment_refunded(caller, buyer, seller) is Ok,
        v.payment_refunded(caller, buyer, seller)->Ok_0.supply_accounted(),
{
    lemma_amount_at_most_total(v.balances, buyer);
    lemma_amount_at_most_total(v.escrow, (buyer, seller));
    lemma_total_of_insert(
        v.balances,
        buyer,
        (v.escrow_of(buyer, seller) + v.balance_of(buyer)) as u128,
    );
    lemma_total_of_insert(v.escrow, (buyer, seller), 0);
}

} // verus!

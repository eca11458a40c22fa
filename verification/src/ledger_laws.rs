//! Laws of the stable currency that relate its steps to what they mean for
//! single accounts.
use vstd::prelude::*;
use crate::account::AccountId;
use crate::stable_currency::{fee_on, payment_amount, Error, StableCurrencyView};
use crate::sums::{
    lemma_amount_at_most_total,
    lemma_total_of_insert,
    lemma_total_of_nonneg,
    lemma_two_amounts_at_most_total,
    total_of,
};
use crate::supply_laws;

verus! {

/// A transfer between two different accounts takes `value` from the sender
/// and gives it to the receiver; every other account and the supply stay as
/// they were. A transfer to oneself changes no balance.
pub proof fn law_transfer_moves_value(
    v: StableCurrencyView,
    from: AccountId,
    to: AccountId,
    value: u128,
    other: AccountId,
)
    requires
        v.supply_accounted(),
        v.balance_of(from) >= value,
    ensures
        v.moved(from, to, value) is Ok,
        ({
            let next = v.moved(from, to, value)->Ok_0;
            &&& next.total_supply == v.total_supply
            &&& from != to ==> next.balance_of(from) == v.balance_of(from) - value
            &&& from != to ==> next.balance_of(to) == v.balance_of(to) + value
            &&& from == to ==> next.balance_of(from) == v.balance_of(from)
            &&& other != from && other != to ==> next.balance_of(other) == v.balance_of(other)
        }),
{
    lemma_total_of_nonneg(v.escrow);
    if from != to {
        lemma_two_amounts_at_most_total(v.balances, from, to);
    }
}

/// After `owner` approves `spender` for `value`, the allowance of that pair
/// is `value` and every other allowance is unchanged.
pub proof fn law_approve_sets_allowance(
    v: StableCurrencyView,
    owner: AccountId,
    spender: AccountId,
    value: u128,
    other_owner: AccountId,
    other_spender: AccountId,
)
    ensures
        v.approved(owner, spender, value).allowance_of(owner, spender) == value,
        (other_owner, other_spender) != (owner, spender) ==> v.approved(owner, spender, value).allowance_of(
            other_owner,
            other_spender,
        ) == v.allowance_of(other_owner, other_spender),
{
}

/// A second approval for the same pair overwrites the first; approving the
/// same value twice leaves the state of approving it once.
pub proof fn law_approve_overwrites(v: StableCurrencyView, owner: AccountId, spender: AccountId, first: u128, second: u128)
    ensures
        v.approved(owner, spender, first).approved(owner, spender, second) == v.approved(owner, spender, second),
        v.approved(owner, spender, first).approved(owner, spender, first) == v.approved(owner, spender, first),
{
    assert(v.approved(owner, spender, first).approved(owner, spender, second) =~= v.approved(owner, spender, second));
    assert(v.approved(owner, spender, first).approved(owner, spender, first) =~= v.approved(owner, spender, first));
}

/// A transfer keeps the sum of all balances.
pub proof fn law_transfer_keeps_balance_sum(v: StableCurrencyView, from: AccountId, to: AccountId, value: u128)
    requires
        v.supply_accounted(),
        v.balance_of(from) >= value,
    ensures
        total_of(v.moved(from, to, value)->Ok_0.balances) == total_of(v.balances),
{
    let debited = v.balances.insert(from, (v.balance_of(from) - value) as u128);
    lemma_amount_at_most_total(v.balances, from);
    lemma_total_of_nonneg(v.escrow);
    lemma_total_of_insert(v.balances, from, (v.balance_of(from) - value) as u128);
    lemma_amount_at_most_total(debited, to);
    lemma_total_of_insert(debited, to, (crate::sums::amount_at(debited, to) + value) as u128);
}

/// A payment moves its amount from the buyer's balance into the escrow for
/// the seller: their sum stays as it was.
pub proof fn law_payment_moves_into_escrow(v: StableCurrencyView, buyer: AccountId, seller: AccountId, value: u64)
    requires
        v.supply_accounted(),
        v.payment_created(buyer, seller, value) is Ok,
    ensures
        ({
            let next = v.payment_created(buyer, seller, value)->Ok_0;
            &&& next.balance_of(buyer) == v.balance_of(buyer) - payment_amount(value)
            &&& next.escrow_of(buyer, seller) == v.escrow_of(buyer, seller) + payment_amount(value)
        }),
{
    lemma_amount_at_most_total(v.balances, buyer);
    lemma_amount_at_most_total(v.escrow, (buyer, seller));
}

/// A refund moves the escrow onto the buyer's balance: their sum stays as it
/// was and the escrow is empty.
pub proof fn law_refund_moves_out_of_escrow(v: StableCurrencyView, caller: AccountId, buyer: AccountId, seller: AccountId)
    requires
        v.supply_accounted(),
        v.may_refund(caller, seller),
    ensures
        ({
            let next = v.payment_refunded(caller, buyer, seller)->Ok_0;
            &&& next.balance_of(buyer) == v.balance_of(buyer) + v.escrow_of(buyer, seller)
            &&& next.escrow_of(buyer, seller) == 0
        }),
{
    lemma_amount_at_most_total(v.balances, buyer);
    lemma_amount_at_most_total(v.escrow, (buyer, seller));
}

/// A spender that moves `value` out of its allowance has that allowance
/// lowered by `value`.
pub proof fn law_transfer_from_spends_allowance(
    v: StableCurrencyView,
    spender: AccountId,
    from: AccountId,
    to: AccountId,
    value: u128,
)
    requires
        v.moved_by_spender(spender, from, to, value) is Ok,
    ensures
        v.moved_by_spender(spender, from, to, value)->Ok_0.allowance_of(from, spender) == v.allowance_of(
            from,
            spender,
        ) - value,
{
}

/// Only the owner can hand over ownership, mint or burn: anyone else is
/// refused with `OnlyOwner`.
pub proof fn law_only_owner_governs(v: StableCurrencyView, caller: AccountId, to: AccountId, value: u128)
    requires
        caller != v.owner,
    ensures
        v.ownership_passed(caller, to) == Err::<StableCurrencyView, crate::stable_currency::Error>(
            crate::stable_currency::Error::OnlyOwner,
        ),
        v.supply_increased(caller, value) == Err::<StableCurrencyView, crate::stable_currency::Error>(
            crate::stable_currency::Error::OnlyOwner,
        ),
        v.supply_decreased(caller, value) == Err::<StableCurrencyView, crate::stable_currency::Error>(
            crate::stable_currency::Error::OnlyOwner,
        ),
{
}

/// Minting and then burning the same amount gives the owner back the balance
/// and the supply it had.
pub proof fn law_burn_undoes_mint(v: StableCurrencyView, value: u128)
    requires
        v.supply_accounted(),
        v.total_supply + value <= u128::MAX,
    ensures
        v.supply_increased(v.owner, value) is Ok,
        v.supply_increased(v.owner, value)->Ok_0.supply_decreased(v.owner, value) is Ok,
        ({
            let back = v.supply_increased(v.owner, value)->Ok_0.supply_decreased(v.owner, value)->Ok_0;
            &&& back.total_supply == v.total_supply
            &&& back.balance_of(v.owner) == v.balance_of(v.owner)
        }),
{
    lemma_amount_at_most_total(v.balances, v.owner);
    lemma_total_of_nonneg(v.escrow);
}

/// The fee on a payment is at least 1 and never more than the payment,
/// unless the payment is 0.
pub proof fn law_fee_bounds(value: u64)
    ensures
        fee_on(value) >= 1,
        value >= 1 ==> fee_on(value) <= value,
        value >= 100 ==> fee_on(value) == value / 100,
        value < 100 ==> fee_on(value) == 1,
{
}

/// An escrow that holds anything covers the fee on paying it out; an empty
/// escrow does not.
pub proof fn law_escrow_covers_fee(v: StableCurrencyView, buyer: AccountId, seller: AccountId)
    ensures
        v.escrow_of(buyer, seller) >= 1 ==> v.settlement_fee(buyer, seller) <= v.escrow_of(buyer, seller),
        v.escrow_of(buyer, seller) == 0 ==> v.settlement_fee(buyer, seller) > v.escrow_of(buyer, seller),
{
    let held = v.escrow_of(buyer, seller);
    if held >= 1 && held <= u64::MAX {
        assert((held as u64) as u128 == held);
    }
}

/// A refund after a payment puts the buyer back where it was, plus whatever
/// the escrow held before; the escrow is left empty and nobody else's
/// balance changes.
pub proof fn law_refund_undoes_payment(
    v: StableCurrencyView,
    buyer: AccountId,
    seller: AccountId,
    value: u64,
    refunder: AccountId,
    other: AccountId,
)
    requires
        v.supply_accounted(),
        v.balance_of(buyer) >= payment_amount(value),
        v.may_refund(refunder, seller),
    ensures
        v.payment_created(buyer, seller, value) is Ok,
        v.payment_created(buyer, seller, value)->Ok_0.payment_refunded(refunder, buyer, seller) is Ok,
        ({
            let back = v.payment_created(buyer, seller, value)->Ok_0.payment_refunded(
                refunder,
                buyer,
                seller,
            )->Ok_0;
            &&& back.balance_of(buyer) == v.balance_of(buyer) + v.escrow_of(buyer, seller)
            &&& back.escrow_of(buyer, seller) == 0
            &&& other != buyer ==> back.balance_of(other) == v.balance_of(other)
            &&& back.total_supply == v.total_supply
        }),
{
    supply_laws::lemma_payment_created_accounted(v, buyer, seller, value);
    lemma_amount_at_most_total(v.balances, buyer);
    lemma_amount_at_most_total(v.escrow, (buyer, seller));
    lemma_total_of_nonneg(v.balances);
    lemma_total_of_nonneg(v.escrow);
}

/// Paying out an escrow gives the seller what it held less the fee, gives
/// the caller the fee, and empties the escrow; nobody else's balance and not
/// the supply change.
pub proof fn law_completion_pays_seller(
    v: StableCurrencyView,
    caller: AccountId,
    buyer: AccountId,
    seller: AccountId,
    other: AccountId,
)
    requires
        v.supply_accounted(),
        v.may_complete(caller, buyer),
        v.settlement_fee(buyer, seller) <= v.escrow_of(buyer, seller),
    ensures
        v.payment_completed(caller, buyer, seller) is Ok,
        ({
            let next = v.payment_completed(caller, buyer, seller)->Ok_0;
            let held = v.escrow_of(buyer, seller);
            let fee = v.settlement_fee(buyer, seller);
            &&& caller != seller ==> next.balance_of(seller) == v.balance_of(seller) + held - fee
            &&& caller != seller ==> next.balance_of(caller) == v.balance_of(caller) + fee
            &&& caller == seller ==> next.balance_of(seller) == v.balance_of(seller) + held
            &&& other != caller && other != seller ==> next.balance_of(other) == v.balance_of(other)
            &&& next.escrow_of(buyer, seller) == 0
            &&& next.total_supply == v.total_supply
        }),
{
    lemma_amount_at_most_total(v.escrow, (buyer, seller));
    lemma_total_of_nonneg(v.balances);
    lemma_total_of_nonneg(v.escrow);
    lemma_amount_at_most_total(v.balances, seller);
    if caller != seller {
        lemma_two_amounts_at_most_total(v.balances, seller, caller);
    }
}

/// A spender may move anything within both its allowance and the owner's
/// balance: such a `transfer_from` succeeds, takes `value` from `from`, gives
/// it to `to` and lowers the allowance by `value`. It is refused for want of
/// allowance exactly when the allowance is below `value`.
pub proof fn law_transfer_from_within_allowance_succeeds(
    v: StableCurrencyView,
    spender: AccountId,
    from: AccountId,
    to: AccountId,
    value: u128,
)
    requires
        v.supply_accounted(),
    ensures
        (v.moved_by_spender(spender, from, to, value) == Err::<StableCurrencyView, Error>(
            Error::InsufficientAllowance,
        )) <==> v.allowance_of(from, spender) < value,
        v.allowance_of(from, spender) >= value && v.balance_of(from) < value ==> v.moved_by_spender(
            spender,
            from,
            to,
            value,
        ) == Err::<StableCurrencyView, Error>(Error::InsufficientBalance),
        v.allowance_of(from, spender) >= value && v.balance_of(from) >= value ==> {
            &&& v.moved_by_spender(spender, from, to, value) is Ok
            &&& v.moved_by_spender(spender, from, to, value)->Ok_0.allowance_of(from, spender)
                == v.allowance_of(from, spender) - value
            &&& from != to ==> v.moved_by_spender(spender, from, to, value)->Ok_0.balance_of(from)
                == v.balance_of(from) - value
            &&& from != to ==> v.moved_by_spender(spender, from, to, value)->Ok_0.balance_of(to)
                == v.balance_of(to) + value
            &&& from == to ==> v.moved_by_spender(spender, from, to, value)->Ok_0.balance_of(from)
                == v.balance_of(from)
            &&& v.moved_by_spender(spender, from, to, value)->Ok_0.total_supply == v.total_supply
        },
{
    lemma_total_of_nonneg(v.escrow);
    if from != to {
        lemma_two_amounts_at_most_total(v.balances, from, to);
    }
}

/// Only the buyer or the owner may pay out an escrow: anyone else is refused
/// with `NotPermission` (and nothing changes), whoever the seller is; the
/// buyer and the owner always may.
pub proof fn law_only_buyer_or_owner_completes(
    v: StableCurrencyView,
    caller: AccountId,
    buyer: AccountId,
    seller: AccountId,
)
    ensures
        caller != buyer && caller != v.owner ==> v.payment_completed(caller, buyer, seller) == Err::<
            StableCurrencyView,
            Error,
        >(Error::NotPermission),
        caller == buyer || caller == v.owner ==> v.payment_completed(caller, buyer, seller) is Ok,
        v.payment_completed(caller, buyer, seller) is Ok ==> caller == buyer || caller == v.owner,
{
}

/// Only the seller or the owner may refund an escrow: anyone else, the buyer
/// too, is refused with `NotPermission`, whoever the seller is; the seller and
/// the owner always may.
pub proof fn law_only_seller_or_owner_refunds(
    v: StableCurrencyView,
    caller: AccountId,
    buyer: AccountId,
    seller: AccountId,
)
    ensures
        caller != seller && caller != v.owner ==> v.payment_refunded(caller, buyer, seller) == Err::<
            StableCurrencyView,
            Error,
        >(Error::NotPermission),
        caller == seller || caller == v.owner ==> v.payment_refunded(caller, buyer, seller) is Ok,
        v.payment_refunded(caller, buyer, seller) is Ok ==> caller == seller || caller == v.owner,
{
}

/// A payment whose value and fee fit in a `u64` parks exactly the value plus
/// its fee: the buyer, if it holds that much, is debited by it and the escrow
/// credited by it; a buyer holding less is refused. Where the sum does not fit,
/// nothing moves.
pub proof fn law_payment_parks_value_and_fee(
    v: StableCurrencyView,
    buyer: AccountId,
    seller: AccountId,
    value: u64,
)
    requires
        v.supply_accounted(),
    ensures
        value + fee_on(value) <= u64::MAX ==> payment_amount(value) == value + fee_on(value),
        value + fee_on(value) <= u64::MAX && v.balance_of(buyer) >= value + fee_on(value) ==> {
            &&& v.payment_created(buyer, seller, value) is Ok
            &&& v.payment_created(buyer, seller, value)->Ok_0.balance_of(buyer) == v.balance_of(buyer) - (
            value + fee_on(value))
            &&& v.payment_created(buyer, seller, value)->Ok_0.escrow_of(buyer, seller) == v.escrow_of(
                buyer,
                seller,
            ) + value + fee_on(value)
        },
        value + fee_on(value) <= u64::MAX && v.balance_of(buyer) < value + fee_on(value)
            ==> v.payment_created(buyer, seller, value) == Err::<StableCurrencyView, Error>(
            Error::InsufficientBalance,
        ),
        value + fee_on(value) > u64::MAX ==> {
            &&& v.payment_created(buyer, seller, value) is Ok
            &&& v.payment_created(buyer, seller, value)->Ok_0.balance_of(buyer) == v.balance_of(buyer)
            &&& v.payment_created(buyer, seller, value)->Ok_0.escrow_of(buyer, seller) == v.escrow_of(
                buyer,
                seller,
            )
        },
{
    lemma_amount_at_most_total(v.balances, buyer);
    lemma_amount_at_most_total(v.escrow, (buyer, seller));
}

/// The owner can hand ownership to any account: the step succeeds, `to`
/// is the owner afterwards, and nothing else changes.
pub proof fn law_owner_hands_over_to_anyone(v: StableCurrencyView, to: AccountId)
    ensures
        v.ownership_passed(v.owner, to) is Ok,
        v.ownership_passed(v.owner, to)->Ok_0.owner == to,
        v.ownership_passed(v.owner, to)->Ok_0.balances == v.balances,
        v.ownership_passed(v.owner, to)->Ok_0.allowances == v.allowances,
        v.ownership_passed(v.owner, to)->Ok_0.escrow == v.escrow,
        v.ownership_passed(v.owner, to)->Ok_0.total_supply == v.total_supply,
        v.ownership_passed(v.owner, to)->Ok_0.symbol == v.symbol,
{
}

/// A transfer succeeds exactly when the sender holds at least `value`;
/// otherwise it is refused with `InsufficientBalance`.
pub proof fn law_transfer_succeeds_iff_covered(v: StableCurrencyView, from: AccountId, to: AccountId, value: u128)
    ensures
        v.moved(from, to, value) is Ok <==> v.balance_of(from) >= value,
        v.balance_of(from) < value ==> v.moved(from, to, value) == Err::<StableCurrencyView, Error>(
            Error::InsufficientBalance,
        ),
{
}

/// The owner's mint always succeeds (within a `u128` supply): the supply
/// and the owner's balance both grow by `value`, nobody else's changes.
pub proof fn law_mint_adds_to_owner(v: StableCurrencyView, value: u128, other: AccountId)
    requires
        v.supply_accounted(),
        v.total_supply + value <= u128::MAX,
    ensures
        v.supply_increased(v.owner, value) is Ok,
        v.supply_increased(v.owner, value)->Ok_0.total_supply == v.total_supply + value,
        v.supply_increased(v.owner, value)->Ok_0.balance_of(v.owner) == v.balance_of(v.owner) + value,
        other != v.owner ==> v.supply_increased(v.owner, value)->Ok_0.balance_of(other) == v.balance_of(
            other,
        ),
{
    lemma_amount_at_most_total(v.balances, v.owner);
    lemma_total_of_nonneg(v.escrow);
}

/// The owner's burn succeeds exactly when it holds at least `value`: the
/// supply and its balance both shrink by `value`; otherwise it is refused
/// with `InsufficientBalance`.
pub proof fn law_burn_takes_from_owner(v: StableCurrencyView, value: u128, other: AccountId)
    requires
        v.supply_accounted(),
    ensures
        v.supply_decreased(v.owner, value) is Ok <==> v.balance_of(v.owner) >= value,
        v.balance_of(v.owner) < value ==> v.supply_decreased(v.owner, value) == Err::<
            StableCurrencyView,
            Error,
        >(Error::InsufficientBalance),
        v.balance_of(v.owner) >= value ==> {
            &&& v.supply_decreased(v.owner, value)->Ok_0.total_supply == v.total_supply - value
            &&& v.supply_decreased(v.owner, value)->Ok_0.balance_of(v.owner) == v.balance_of(v.owner) - value
            &&& other != v.owner ==> v.supply_decreased(v.owner, value)->Ok_0.balance_of(other)
                == v.balance_of(other)
        },
{
    lemma_amount_at_most_total(v.balances, v.owner);
    lemma_total_of_nonneg(v.escrow);
}

/// The fee kept back on paying out an escrow that fits in a `u64` is one
/// percent of it, rounded down, and 1 where that is 0.
pub proof fn law_settlement_fee_is_one_percent(v: StableCurrencyView, buyer: AccountId, seller: AccountId)
    ensures
        100 <= v.escrow_of(buyer, seller) <= u64::MAX ==> v.settlement_fee(buyer, seller) == v.escrow_of(
            buyer,
            seller,
        ) / 100,
        v.escrow_of(buyer, seller) < 100 ==> v.settlement_fee(buyer, seller) == 1,
{
    let held = v.escrow_of(buyer, seller);
    if held <= u64::MAX {
        assert((held as u64) == held);
    }
}

} // verus!

//! A stable currency: a fungible token with an owner who can mint and burn,
//! allowances for spending on another's behalf, and an escrow in which a buyer
//! parks a payment (plus a fee) for a seller until it is completed or refunded.
//!
//! Every state change is stated against `StableCurrencyView` by one of the
//! step functions below; each message's contract says that it takes exactly
//! that step.
use vstd::prelude::*;
use crate::account::{same_account, AccountId, Balance};
use crate::sums::{amount_at, total_of};
use crate::tables::{balance_entries, pair_entries, table_capacity, BalanceTable, PairTable};
use crate::supply_laws;
use crate::ledger_laws;

verus! {

/// Why a message was refused.
#[derive(Debug, Clone, Copy, PartialEq, Eq, Structural)]
pub enum Error {
    InsufficientBalance,
    InsufficientAllowance,
    OnlyOwner,
    NotPermission,
}

/// Event emitted when tokens move from one account to another.
#[derive(Debug, Clone, Copy, PartialEq, Eq)]
pub struct Transfer {
    pub from: Option<AccountId>,
    pub to: Option<AccountId>,
    pub value: Balance,
}

/// Event emitted when `spender` is allowed to withdraw up to `value` tokens
/// from `owner`.
#[derive(Debug, Clone, Copy, PartialEq, Eq)]
pub struct Approval {
    pub owner: AccountId,
    pub spender: AccountId,
    pub value: Balance,
}

/// A message sent to the contract, with its caller, as the laws over
/// histories of messages see it.
pub enum Message {
    Approve { caller: AccountId, spender: AccountId, value: u128 },
    Transfer { caller: AccountId, to: AccountId, value: u128 },
    TransferFrom { caller: AccountId, from: AccountId, to: AccountId, value: u128 },
    TransferOwnership { caller: AccountId, to: AccountId },
    IncSupply { caller: AccountId, value: u128 },
    DecSupply { caller: AccountId, value: u128 },
    CreatePayment { caller: AccountId, seller: AccountId, value: u64 },
    CompletePayment { caller: AccountId, from: AccountId, to: AccountId },
    Refund { caller: AccountId, from: AccountId, to: AccountId },
}

/// The contract's storage.
pub struct StableCurrency {
    /// Owner of the contract.
    owner: AccountId,
    /// Total token supply.
    total_supply: Balance,
    /// Mapping from owner to number of owned tokens.
    balances: BalanceTable,
    /// Mapping of the token amount which an account is allowed to withdraw
    /// from another account, keyed by (owner, spender).
    allowances: PairTable,
    /// Token symbol.
    symbol: String,
    /// Escrowed amounts, keyed by (buyer, seller).
    escrow_balances: PairTable,
}

/// The contract's state as mathematics.
#[verifier::ext_equal]
pub struct StableCurrencyView {
    pub owner: AccountId,
    pub total_supply: u128,
    pub balances: Map<AccountId, u128>,
    pub allowances: Map<(AccountId, AccountId), u128>,
    pub symbol: Seq<char>,
    pub escrow: Map<(AccountId, AccountId), u128>,
}

/// The fee on a payment of `value`: one percent, rounded down, and at least 1.
pub open spec fn fee_on(value: u64) -> u64 {
    if value / 100 == 0 {
        1
    } else {
        value / 100
    }
}

/// What a buyer pays into escrow for a payment of `value`: the value and its
/// fee, or nothing at all where that sum does not fit in a `u64`.
pub open spec fn payment_amount(value: u64) -> u128 {
    if value + fee_on(value) <= u64::MAX {
        (value + fee_on(value)) as u128
    } else {
        0
    }
}

/// The event of a move of `value` from `from` to `to`.
pub open spec fn transfer_event(from: AccountId, to: AccountId, value: Balance) -> Transfer {
    Transfer { from: Some(from), to: Some(to), value }
}

/// A message's result and the state after it agree with `step` from
/// `before`: on success the result is `Ok(ok)` and the state is the step's;
/// on failure the result is the step's error and the state is unchanged.
pub open spec fn follows<T>(
    result: Result<T, Error>,
    ok: T,
    before: StableCurrencyView,
    after: StableCurrencyView,
    step: Result<StableCurrencyView, Error>,
) -> bool {
    match step {
        Ok(next) => result == Ok::<T, Error>(ok) && after == next,
        Err(e) => result == Err::<T, Error>(e) && after == before,
    }
}

impl StableCurrencyView {
    /// The state of a contract created by `creator` with `initial_supply`.
    pub open spec fn created(creator: AccountId, initial_supply: u128, symbol: Seq<char>) -> Self {
        StableCurrencyView {
            owner: creator,
            total_supply: initial_supply,
            balances: Map::empty().insert(creator, initial_supply),
            allowances: Map::empty(),
            symbol,
            escrow: Map::empty(),
        }
    }

    pub open spec fn balance_of(self, account: AccountId) -> u128 {
        amount_at(self.balances, account)
    }

    pub open spec fn allowance_of(self, owner: AccountId, spender: AccountId) -> u128 {
        amount_at(self.allowances, (owner, spender))
    }

    pub open spec fn escrow_of(self, buyer: AccountId, seller: AccountId) -> u128 {
        amount_at(self.escrow, (buyer, seller))
    }

    /// Every token of the supply is either on some account or in some escrow.
    pub open spec fn supply_accounted(self) -> bool {
        &&& self.balances.dom().finite()
        &&& self.allowances.dom().finite()
        &&& self.escrow.dom().finite()
        &&& total_of(self.balances) + total_of(self.escrow) == self.total_supply
    }

    /// The storage tables can take `account` and `other` as keys of the
    /// balances (a storage map counts its keys in a `u32`).
    pub open spec fn balances_fit(self, account: AccountId, other: AccountId) -> bool {
        self.balances.dom().insert(account).insert(other).len() <= table_capacity()
    }

    pub open spec fn balance_fits(self, account: AccountId) -> bool {
        self.balances.dom().insert(account).len() <= table_capacity()
    }

    pub open spec fn allowances_fit(self, key: (AccountId, AccountId)) -> bool {
        self.allowances.dom().insert(key).len() <= table_capacity()
    }

    pub open spec fn escrow_fits(self, key: (AccountId, AccountId)) -> bool {
        self.escrow.dom().insert(key).len() <= table_capacity()
    }

    /// `owner` allows `spender` to withdraw up to `value`.
    pub open spec fn approved(self, owner: AccountId, spender: AccountId, value: u128) -> Self {
        StableCurrencyView { allowances: self.allowances.insert((owner, spender), value), ..self }
    }

    /// `value` moves from `from` to `to`: `from` is debited first, then `to`
    /// is credited on top of what it holds after the debit.
    pub open spec fn moved(self, from: AccountId, to: AccountId, value: u128) -> Result<Self, Error> {
        if self.balance_of(from) < value {
            Err(Error::InsufficientBalance)
        } else {
            let debited = self.balances.insert(from, (self.balance_of(from) - value) as u128);
            Ok(
                StableCurrencyView {
                    balances: debited.insert(to, (amount_at(debited, to) + value) as u128),
                    ..self
                },
            )
        }
    }

    /// `spender` moves `value` from `from` to `to` out of its allowance.
    pub open spec fn moved_by_spender(
        self,
        spender: AccountId,
        from: AccountId,
        to: AccountId,
        value: u128,
    ) -> Result<Self, Error> {
        let allowance = self.allowance_of(from, spender);
        if allowance < value {
            Err(Error::InsufficientAllowance)
        } else {
            match self.moved(from, to, value) {
                Ok(next) => Ok(
                    StableCurrencyView {
                        allowances: next.allowances.insert((from, spender), (allowance - value) as u128),
                        ..next
                    },
                ),
                Err(e) => Err(e),
            }
        }
    }

    pub open spec fn ownership_passed(self, caller: AccountId, to: AccountId) -> Result<Self, Error> {
        if caller != self.owner {
            Err(Error::OnlyOwner)
        } else {
            Ok(StableCurrencyView { owner: to, ..self })
        }
    }

    /// The owner mints `value` tokens onto its own account.
    pub open spec fn supply_increased(self, caller: AccountId, value: u128) -> Result<Self, Error> {
        if caller != self.owner {
            Err(Error::OnlyOwner)
        } else {
            Ok(
                StableCurrencyView {
                    total_supply: (self.total_supply + value) as u128,
                    balances: self.balances.insert(caller, (self.balance_of(caller) + value) as u128),
                    ..self
                },
            )
        }
    }

    /// The owner burns `value` tokens from its own account.
    pub open spec fn supply_decreased(self, caller: AccountId, value: u128) -> Result<Self, Error> {
        if caller != self.owner {
            Err(Error::OnlyOwner)
        } else if self.balance_of(caller) < value {
            Err(Error::InsufficientBalance)
        } else {
            Ok(
                StableCurrencyView {
                    total_supply: (self.total_supply - value) as u128,
                    balances: self.balances.insert(caller, (self.balance_of(caller) - value) as u128),
                    ..self
                },
            )
        }
    }

    /// `buyer` parks a payment of `value` and its fee in escrow for `seller`.
    pub open spec fn payment_created(self, buyer: AccountId, seller: AccountId, value: u64) -> Result<
        Self,
        Error,
    > {
        let amount = payment_amount(value);
        if self.balance_of(buyer) < amount {
            Err(Error::InsufficientBalance)
        } else {
            Ok(
                StableCurrencyView {
                    balances: self.balances.insert(buyer, (self.balance_of(buyer) - amount) as u128),
                    escrow: self.escrow.insert(
                        (buyer, seller),
                        (self.escrow_of(buyer, seller) + amount) as u128,
                    ),
                    ..self
                },
            )
        }
    }

    /// The fee kept back when the escrow from `buyer` to `seller` is paid out:
    /// the fee on the escrowed amount cast to a `u64` (Rust's `as`, which keeps
    /// the low 64 bits).
    pub open spec fn settlement_fee(self, buyer: AccountId, seller: AccountId) -> u128 {
        fee_on(self.escrow_of(buyer, seller) as u64) as u128
    }

    pub open spec fn may_complete(self, caller: AccountId, buyer: AccountId) -> bool {
        caller == buyer || caller == self.owner
    }

    pub open spec fn may_refund(self, caller: AccountId, seller: AccountId) -> bool {
        caller == seller || caller == self.owner
    }

    /// The escrow from `buyer` to `seller` is paid out: the seller gets it
    /// less the fee, then the caller gets the fee, and the escrow is zeroed.
    pub open spec fn payment_completed(self, caller: AccountId, buyer: AccountId, seller: AccountId) -> Result<
        Self,
        Error,
    > {
        if !self.may_complete(caller, buyer) {
            Err(Error::NotPermission)
        } else {
            let held = self.escrow_of(buyer, seller);
            let fee = self.settlement_fee(buyer, seller);
            let paid = self.balances.insert(seller, (held - fee + self.balance_of(seller)) as u128);
            Ok(
                StableCurrencyView {
                    balances: paid.insert(caller, (fee + amount_at(paid, caller)) as u128),
                    escrow: self.escrow.insert((buyer, seller), 0),
                    ..self
                },
            )
        }
    }

    /// The escrow from `buyer` to `seller` goes back to the buyer and is zeroed.
    pub open spec fn payment_refunded(self, caller: AccountId, buyer: AccountId, seller: AccountId) -> Result<
        Self,
        Error,
    > {
        if !self.may_refund(caller, seller) {
            Err(Error::NotPermission)
        } else {
            Ok(
                StableCurrencyView {
                    balances: self.balances.insert(
                        buyer,
                        (self.escrow_of(buyer, seller) + self.balance_of(buyer)) as u128,
                    ),
                    escrow: self.escrow.insert((buyer, seller), 0),
                    ..self
                },
            )
        }
    }

    /// The step that `message` takes from this state.
    pub open spec fn step(self, message: Message) -> Result<Self, Error> {
        match message {
            Message::Approve { caller, spender, value } => Ok(self.approved(caller, spender, value)),
            Message::Transfer { caller, to, value } => self.moved(caller, to, value),
            Message::TransferFrom { caller, from, to, value } => self.moved_by_spender(caller, from, to, value),
            Message::TransferOwnership { caller, to } => self.ownership_passed(caller, to),
            Message::IncSupply { caller, value } => self.supply_increased(caller, value),
            Message::DecSupply { caller, value } => self.supply_decreased(caller, value),
            Message::CreatePayment { caller, seller, value } => self.payment_created(caller, seller, value),
            Message::CompletePayment { caller, from, to } => self.payment_completed(caller, from, to),
            Message::Refund { caller, from, to } => self.payment_refunded(caller, from, to),
        }
    }

    /// The state after `message`: the step's on success, this one on failure.
    pub open spec fn after(self, message: Message) -> Self {
        match self.step(message) {
            Ok(next) => next,
            Err(_) => self,
        }
    }

    /// `message` runs without an arithmetic overflow: minting stays within a
    /// `u128`, and an escrow being paid out covers its fee.
    pub open spec fn no_overflow(self, message: Message) -> bool {
        match message {
            Message::IncSupply { caller, value } => caller == self.owner ==> self.total_supply + value
                <= u128::MAX,
            Message::CompletePayment { caller, from, to } => self.may_complete(caller, from)
                ==> self.settlement_fee(from, to) <= self.escrow_of(from, to),
            _ => true,
        }
    }

    /// The storage tables have room for every key that `message` writes.
    pub open spec fn has_room(self, message: Message) -> bool {
        match message {
            Message::Approve { caller, spender, value } => self.allowances_fit((caller, spender)),
            Message::Transfer { caller, to, value } => self.moved(caller, to, value) is Ok
                ==> self.balances_fit(caller, to),
            Message::TransferFrom { caller, from, to, value } => self.moved_by_spender(
                caller,
                from,
                to,
                value,
            ) is Ok ==> self.balances_fit(from, to) && self.allowances_fit((from, caller)),
            Message::TransferOwnership { caller, to } => true,
            Message::IncSupply { caller, value } => caller == self.owner ==> self.balance_fits(caller),
            Message::DecSupply { caller, value } => self.supply_decreased(caller, value) is Ok
                ==> self.balance_fits(caller),
            Message::CreatePayment { caller, seller, value } => self.payment_created(caller, seller, value)
                is Ok ==> self.balance_fits(caller) && self.escrow_fits((caller, seller)),
            Message::CompletePayment { caller, from, to } => self.may_complete(caller, from)
                ==> self.balances_fit(to, caller) && self.escrow_fits((from, to)),
            Message::Refund { caller, from, to } => self.may_refund(caller, to) ==> self.balance_fits(from)
                && self.escrow_fits((from, to)),
        }
    }

    /// The contract accepts `message` in this state: it runs without a panic.
    pub open spec fn admits(self, message: Message) -> bool {
        self.no_overflow(message) && self.has_room(message)
    }
}

impl View for StableCurrency {
    type V = StableCurrencyView;

    closed spec fn view(&self) -> StableCurrencyView {
        StableCurrencyView {
            owner: self.owner,
            total_supply: self.total_supply,
            balances: balance_entries(self.balances),
            allowances: pair_entries(self.allowances),
            symbol: self.symbol@,
            escrow: pair_entries(self.escrow_balances),
        }
    }
}

proof fn lemma_fits_first_of_two<K>(dom: Set<K>, a: K, b: K)
    requires
        dom.finite(),
    ensures
        dom.insert(a).len() <= dom.insert(a).insert(b).len(),
{
    vstd::set_lib::lemma_len_subset(dom.insert(a), dom.insert(a).insert(b));
}

impl StableCurrency {
    /// The contract's invariant: the supply is accounted for.
    pub open spec fn wf(&self) -> bool {
        self@.supply_accounted()
    }

    /// Creates the contract; `caller` becomes its owner and holds the whole
    /// initial supply.
    pub fn new(caller: AccountId, initial_supply: Balance, symbol: String) -> (contract: Self)
        ensures
            contract.wf(),
            contract@ == StableCurrencyView::created(caller, initial_supply, symbol@),
    {
        let mut balances = BalanceTable::new();
        balances.insert(caller, initial_supply);
        let contract = StableCurrency {
            owner: caller,
            total_supply: initial_supply,
            escrow_balances: PairTable::new(),
            allowances: PairTable::new(),
            balances,
            symbol,
        };
        proof {
            supply_laws::lemma_created_accounted(caller, initial_supply, symbol@);
            assert(contract@ =~= StableCurrencyView::created(caller, initial_supply, symbol@));
        }
        contract
    }

    pub fn total_supply(&self) -> (supply: Balance)
        ensures
            supply == self@.total_supply,
    {
        self.total_supply
    }

    pub fn token_symbol(&self) -> (symbol: String)
        ensures
            symbol@ == self@.symbol,
    {
        self.symbol.clone()
    }

    pub fn balance_of(&self, owner: AccountId) -> (balance: Balance)
        ensures
            balance == self@.balance_of(owner),
    {
        self.balance_of_or_zero(&owner)
    }

    /// `caller` allows `spender` to withdraw up to `value`; returns the event
    /// to emit.
    pub fn approve(&mut self, caller: AccountId, spender: AccountId, value: Balance) -> (event: Approval)
        requires
            old(self).wf(),
            old(self)@.admits((Message::Approve { caller, spender, value })),
        ensures
            final(self).wf(),
            final(self)@ == old(self)@.approved(caller, spender, value),
            event == (Approval { owner: caller, spender, value }),
    {
        self.allowances.insert((caller, spender), value);
        proof {
            assert(self@ =~= old(self)@.approved(caller, spender, value));
        }
        Approval { owner: caller, spender, value }
    }

    pub fn allowance(&self, owner: AccountId, spender: AccountId) -> (allowance: Balance)
        ensures
            allowance == self@.allowance_of(owner, spender),
    {
        self.allowance_of_or_zero(&owner, &spender)
    }

    /// `caller` moves `value` from `from` to `to` out of the allowance that
    /// `from` gave it; returns the event to emit.
    pub fn transfer_from(&mut self, caller: AccountId, from: AccountId, to: AccountId, value: Balance) -> (result:
        Result<Transfer, Error>)
        requires
            old(self).wf(),
            old(self)@.admits((Message::TransferFrom { caller, from, to, value })),
        ensures
            final(self).wf(),
            follows(
                result,
                transfer_event(from, to, value),
                old(self)@,
                final(self)@,
                old(self)@.moved_by_spender(caller, from, to, value),
            ),
            old(self)@.allowance_of(from, caller) >= value && old(self)@.balance_of(from) >= value ==> {
                &&& result == Ok::<Transfer, Error>(transfer_event(from, to, value))
                &&& final(self)@.allowance_of(from, caller) == old(self)@.allowance_of(from, caller) - value
            },
            (result == Err::<Transfer, Error>(Error::InsufficientAllowance)) <==> old(self)@.allowance_of(
                from,
                caller,
            ) < value,
    {
        proof {
            ledger_laws::law_transfer_from_within_allowance_succeeds(self@, caller, from, to, value);
        }
        let allowance = self.allowance_of_or_zero(&from, &caller);
        if allowance < value {
            return Err(Error::InsufficientAllowance);
        }
        let event = match self.transfer_from_to(from, to, value) {
            Ok(event) => event,
            Err(e) => {
                return Err(e);
            },
        };
        self.allowances.insert((from, caller), allowance - value);
        proof {
            assert(self@ =~= old(self)@.moved_by_spender(caller, from, to, value)->Ok_0);
        }
        Ok(event)
    }

    /// `caller` moves `value` of its own tokens to `to`; returns the event to
    /// emit.
    pub fn transfer(&mut self, caller: AccountId, to: AccountId, value: Balance) -> (result: Result<
        Transfer,
        Error,
    >)
        requires
            old(self).wf(),
            old(self)@.admits((Message::Transfer { caller, to, value })),
        ensures
            final(self).wf(),
            follows(result, transfer_event(caller, to, value), old(self)@, final(self)@, old(self)@.moved(caller, to, value)),
    {
        self.transfer_from_to(caller, to, value)
    }

    /// `caller`, if it is the owner, hands ownership to `to`.
    pub fn transfer_ownership(&mut self, caller: AccountId, to: AccountId) -> (result: Result<(), Error>)
        requires
            old(self).wf(),
        ensures
            final(self).wf(),
            follows(result, (), old(self)@, final(self)@, old(self)@.ownership_passed(caller, to)),
            caller == old(self)@.owner ==> result is Ok && final(self)@.owner == to,
    {
        match self.only_owner(caller) {
            Ok(()) => {},
            Err(e) => {
                return Err(e);
            },
        }
        self.owner = to;
        proof {
            assert(self@ =~= old(self)@.ownership_passed(caller, to)->Ok_0);
        }
        Ok(())
    }

    /// `caller`, if it is the owner, mints `value` tokens onto its account.
    pub fn inc_supply(&mut self, caller: AccountId, value: Balance) -> (result: Result<(), Error>)
        requires
            old(self).wf(),
            old(self)@.admits((Message::IncSupply { caller, value })),
        ensures
            final(self).wf(),
            follows(result, (), old(self)@, final(self)@, old(self)@.supply_increased(caller, value)),
    {
        match self.only_owner(caller) {
            Ok(()) => {},
            Err(e) => {
                return Err(e);
            },
        }
        let owner_balance = self.balance_of_or_zero(&caller);
        proof {
            crate::sums::lemma_amount_at_most_total(self@.balances, caller);
            crate::sums::lemma_total_of_nonneg(self@.escrow);
        }
        self.total_supply = self.total_supply + value;
        self.balances.insert(caller, owner_balance + value);
        proof {
            supply_laws::lemma_supply_increased_accounted(old(self)@, caller, value);
            assert(self@ =~= old(self)@.supply_increased(caller, value)->Ok_0);
        }
        Ok(())
    }

    /// `caller`, if it is the owner, burns `value` tokens from its account.
    pub fn dec_supply(&mut self, caller: AccountId, value: Balance) -> (result: Result<(), Error>)
        requires
            old(self).wf(),
            old(self)@.admits((Message::DecSupply { caller, value })),
        ensures
            final(self).wf(),
            follows(result, (), old(self)@, final(self)@, old(self)@.supply_decreased(caller, value)),
    {
        match self.only_owner(caller) {
            Ok(()) => {},
            Err(e) => {
                return Err(e);
            },
        }
        let owner_balance = self.balance_of_or_zero(&caller);
        if owner_balance < value {
            return Err(Error::InsufficientBalance);
        }
        proof {
            crate::sums::lemma_amount_at_most_total(self@.balances, caller);
            crate::sums::lemma_total_of_nonneg(self@.escrow);
        }
        self.total_supply = self.total_supply - value;
        self.balances.insert(caller, owner_balance - value);
        proof {
            supply_laws::lemma_supply_decreased_accounted(old(self)@, caller, value);
            assert(self@ =~= old(self)@.supply_decreased(caller, value)->Ok_0);
        }
        Ok(())
    }

    /// `caller` (the buyer) parks a payment of `value` plus its fee in escrow
    /// for `seller`.
    pub fn create_payment(&mut self, caller: AccountId, seller: AccountId, value: u64) -> (result: Result<
        (),
        Error,
    >)
        requires
            old(self).wf(),
            old(self)@.admits((Message::CreatePayment { caller, seller, value })),
        ensures
            final(self).wf(),
            follows(result, (), old(self)@, final(self)@, old(self)@.payment_created(caller, seller, value)),
            value + fee_on(value) <= u64::MAX && old(self)@.balance_of(caller) >= value + fee_on(value) ==> {
                &&& result is Ok
                &&& final(self)@.balance_of(caller) == old(self)@.balance_of(caller) - (value + fee_on(value))
                &&& final(self)@.escrow_of(caller, seller) == old(self)@.escrow_of(caller, seller) + value
                    + fee_on(value)
            },
    {
        proof {
            ledger_laws::law_payment_parks_value_and_fee(self@, caller, seller, value);
        }
        let order = caller;
        let fee = self.cal_fee(value);
        let amount: Balance = match value.checked_add(fee) {
            Some(sum) => sum as Balance,
            None => 0,
        };
        let order_balance = self.balance_of_or_zero(&order);
        if order_balance < amount {
            return Err(Error::InsufficientBalance);
        }
        self.balances.insert(order, order_balance - amount);
        let escrow_balance = self.escrow_of_or_zero(&order, &seller);
        proof {
            crate::sums::lemma_amount_at_most_total(old(self)@.balances, order);
            crate::sums::lemma_amount_at_most_total(old(self)@.escrow, (order, seller));
        }
        self.escrow_balances.insert((order, seller), escrow_balance + amount);
        proof {
            supply_laws::lemma_payment_created_accounted(old(self)@, order, seller, value);
            assert(self@ =~= old(self)@.payment_created(caller, seller, value)->Ok_0);
        }
        Ok(())
    }

    /// The escrow from `from` to `to` is paid out to `to`, less the fee, which
    /// goes to `caller`; only the buyer or the owner may do this.
    pub fn complete_payment(&mut self, caller: AccountId, from: AccountId, to: AccountId) -> (result: Result<
        (),
        Error,
    >)
        requires
            old(self).wf(),
            old(self)@.admits((Message::CompletePayment { caller, from, to })),
        ensures
            final(self).wf(),
            follows(result, (), old(self)@, final(self)@, old(self)@.payment_completed(caller, from, to)),
            caller != from && caller != old(self)@.owner ==> result == Err::<(), Error>(Error::NotPermission)
                && final(self)@ == old(self)@,
            caller == from || caller == old(self)@.owner ==> result is Ok,
    {
        let is_buyer = same_account(&caller, &from);
        let is_owner = same_account(&caller, &self.owner);
        if is_buyer || is_owner {
            let esbalance = self.escrow_of_or_zero(&from, &to);
            let fee = self.cal_fee(esbalance as u64) as Balance;
            let esbalance = esbalance - fee;
            let tobalance = self.balance_of_or_zero(&to);
            proof {
                crate::sums::lemma_amount_at_most_total(old(self)@.balances, to);
                crate::sums::lemma_amount_at_most_total(old(self)@.escrow, (from, to));
                lemma_fits_first_of_two(old(self)@.balances.dom(), to, caller);
                crate::sums::lemma_total_of_insert(old(self)@.balances, to, (esbalance + tobalance) as u128);
            }
            self.balances.insert(to, esbalance + tobalance);
            let callbalance = self.balance_of_or_zero(&caller);
            proof {
                crate::sums::lemma_amount_at_most_total(self@.balances, caller);
            }
            self.balances.insert(caller, fee + callbalance);
            self.escrow_balances.insert((from, to), 0);
            proof {
                supply_laws::lemma_payment_completed_accounted(old(self)@, caller, from, to);
                assert(self@ =~= old(self)@.payment_completed(caller, from, to)->Ok_0);
            }
            Ok(())
        } else {
            Err(Error::NotPermission)
        }
    }

    /// The escrow from `from` to `to` goes back to `from`; only the seller or
    /// the owner may do this.
    pub fn refund(&mut self, caller: AccountId, from: AccountId, to: AccountId) -> (result: Result<(), Error>)
        requires
            old(self).wf(),
            old(self)@.admits((Message::Refund { caller, from, to })),
        ensures
            final(self).wf(),
            follows(result, (), old(self)@, final(self)@, old(self)@.payment_refunded(caller, from, to)),
            caller != to && caller != old(self)@.owner ==> result == Err::<(), Error>(Error::NotPermission)
                && final(self)@ == old(self)@,
            caller == to || caller == old(self)@.owner ==> result is Ok,
    {
        let esbalance = self.escrow_of_or_zero(&from, &to);
        let is_seller = same_account(&caller, &to);
        let is_owner = same_account(&caller, &self.owner);
        if is_seller || is_owner {
            let balance = self.balance_of_or_zero(&from);
            proof {
                crate::sums::lemma_amount_at_most_total(old(self)@.balances, from);
                crate::sums::lemma_amount_at_most_total(old(self)@.escrow, (from, to));
            }
            self.balances.insert(from, esbalance + balance);
            self.escrow_balances.insert((from, to), 0);
            proof {
                supply_laws::lemma_payment_refunded_accounted(old(self)@, caller, from, to);
                assert(self@ =~= old(self)@.payment_refunded(caller, from, to)->Ok_0);
            }
            Ok(())
        } else {
            Err(Error::NotPermission)
        }
    }

    pub fn escrow_balance(&self, from: AccountId, to: AccountId) -> (escrowed: Balance)
        ensures
            escrowed == self@.escrow_of(from, to),
    {
        self.escrow_of_or_zero(&from, &to)
    }

    /// Whether the balance table has room for `account` and `other` as keys,
    /// which `transfer`, `transfer_from` and `complete_payment` need.
    pub fn balances_have_room(&self, account: AccountId, other: AccountId) -> (fits: bool)
        requires
            self.wf(),
        ensures
            fits == self@.balances_fit(account, other),
    {
        let count = self.balances.len();
        let account_is_new = self.balances.get(&account).is_none();
        let other_is_new = !same_account(&account, &other) && self.balances.get(&other).is_none();
        let mut needed: u64 = count as u64;
        if account_is_new {
            needed = needed + 1;
        }
        if other_is_new {
            needed = needed + 1;
        }
        needed <= 4294967295
    }

    /// Whether the allowance table has room for the key (`owner`, `spender`).
    pub fn allowances_have_room(&self, owner: AccountId, spender: AccountId) -> (fits: bool)
        requires
            self.wf(),
        ensures
            fits == self@.allowances_fit((owner, spender)),
    {
        let count = self.allowances.len();
        if self.allowances.get(&(owner, spender)).is_none() {
            count < 4294967295
        } else {
            true
        }
    }

    /// Whether the escrow table has room for the key (`buyer`, `seller`).
    pub fn escrow_has_room(&self, buyer: AccountId, seller: AccountId) -> (fits: bool)
        requires
            self.wf(),
        ensures
            fits == self@.escrow_fits((buyer, seller)),
    {
        let count = self.escrow_balances.len();
        if self.escrow_balances.get(&(buyer, seller)).is_none() {
            count < 4294967295
        } else {
            true
        }
    }

    fn transfer_from_to(&mut self, from: AccountId, to: AccountId, value: Balance) -> (result: Result<
        Transfer,
        Error,
    >)
        requires
            old(self).wf(),
            old(self)@.moved(from, to, value) is Ok ==> old(self)@.balances_fit(from, to),
        ensures
            final(self).wf(),
            follows(result, transfer_event(from, to, value), old(self)@, final(self)@, old(self)@.moved(from, to, value)),
    {
        let from_balance = self.balance_of_or_zero(&from);
        if from_balance < value {
            return Err(Error::InsufficientBalance);
        }
        proof {
            lemma_fits_first_of_two(old(self)@.balances.dom(), from, to);
            crate::sums::lemma_total_of_insert(old(self)@.balances, from, (from_balance - value) as u128);
            crate::sums::lemma_amount_at_most_total(old(self)@.balances, from);
            crate::sums::lemma_total_of_nonneg(old(self)@.escrow);
        }
        // Update the sender's balance.
        self.balances.insert(from, from_balance - value);
        // Update the receiver's balance.
        let to_balance = self.balance_of_or_zero(&to);
        proof {
            crate::sums::lemma_amount_at_most_total(self@.balances, to);
        }
        self.balances.insert(to, to_balance + value);
        proof {
            supply_laws::lemma_moved_accounted(old(self)@, from, to, value);
            assert(self@ =~= old(self)@.moved(from, to, value)->Ok_0);
        }
        Ok(Transfer { from: Some(from), to: Some(to), value })
    }

    fn escrow_of_or_zero(&self, order: &AccountId, seller: &AccountId) -> (escrowed: Balance)
        ensures
            escrowed == self@.escrow_of(*order, *seller),
    {
        match self.escrow_balances.get(&(*order, *seller)) {
            Some(amount) => amount,
            None => 0,
        }
    }

    /// The fee on a payment of `value`: one percent, and at least 1.
    pub fn cal_fee(&self, value: u64) -> (fee: u64)
        ensures
            fee == fee_on(value),
    {
        let mut fee = match value.checked_div(100) {
            Some(quotient) => quotient,
            None => 1,
        };
        if fee == 0 {
            fee = 1;
        }
        fee
    }

    /// `Ok` exactly when `caller` is the owner.
    pub fn only_owner(&self, caller: AccountId) -> (result: Result<(), Error>)
        ensures
            result == (if caller == self@.owner {
                Ok::<(), Error>(())
            } else {
                Err::<(), Error>(Error::OnlyOwner)
            }),
    {
        if same_account(&self.owner, &caller) {
            Ok(())
        } else {
            return Err(Error::OnlyOwner);
        }
    }

    fn balance_of_or_zero(&self, owner: &AccountId) -> (balance: Balance)
        ensures
            balance == self@.balance_of(*owner),
    {
        match self.balances.get(owner) {
            Some(amount) => amount,
            None => 0,
        }
    }

    fn allowance_of_or_zero(&self, owner: &AccountId, spender: &AccountId) -> (allowance: Balance)
        ensures
            allowance == self@.allowance_of(*owner, *spender),
    {
        match self.allowances.get(&(*owner, *spender)) {
            Some(amount) => amount,
            None => 0,
        }
    }
}

} // verus!

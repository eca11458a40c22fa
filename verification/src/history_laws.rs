//! Laws over histories of messages: what the state of the stable currency is
//! after any sequence of messages, each of which either takes its step or
//! fails and changes nothing (as every message's contract says).
use vstd::prelude::*;
use crate::account::AccountId;
use crate::stable_currency::{follows, payment_amount, Error, Message, StableCurrencyView};
use crate::sums::{lemma_amount_at_most_total, lemma_total_of_nonneg};
use crate::supply_laws;

verus! {

/// The state after the first `k` messages of `history`, starting from `v`.
pub open spec fn state_after(v: StableCurrencyView, history: Seq<Message>, k: nat) -> StableCurrencyView
    decreases k,
{
    if k == 0 {
        v
    } else {
        state_after(v, history, (k - 1) as nat).after(history[k - 1])
    }
}

/// Message `j` of `history` succeeds.
pub open spec fn succeeds(v: StableCurrencyView, history: Seq<Message>, j: nat) -> bool {
    state_after(v, history, j).step(history[j as int]) is Ok
}

/// None of the first `k` messages of `history` overflows.
pub open spec fn overflow_free(v: StableCurrencyView, history: Seq<Message>, k: nat) -> bool {
    forall|j: nat| j < k ==> #[trigger] state_after(v, history, j).no_overflow(history[j as int])
}

/// A message's contract, `follows` its step, leaves the state that `after`
/// gives: a history of calls is a history of messages.
pub proof fn law_call_takes_after<T>(
    result: Result<T, Error>,
    ok: T,
    before: StableCurrencyView,
    after_call: StableCurrencyView,
    message: Message,
)
    requires
        follows(result, ok, before, after_call, before.step(message)),
    ensures
        after_call == before.after(message),
{
}

proof fn lemma_after_keeps_supply(s: StableCurrencyView, m: Message)
    requires
        s.supply_accounted(),
        s.no_overflow(m),
    ensures
        s.after(m).supply_accounted(),
{
    match m {
        Message::Transfer { caller, to, value } => {
            if s.step(m) is Ok {
                supply_laws::lemma_moved_accounted(s, caller, to, value);
            }
        },
        Message::TransferFrom { caller, from, to, value } => {
            if s.step(m) is Ok {
                supply_laws::lemma_moved_accounted(s, from, to, value);
            }
        },
        Message::IncSupply { caller, value } => {
            if s.step(m) is Ok {
                supply_laws::lemma_supply_increased_accounted(s, caller, value);
            }
        },
        Message::DecSupply { caller, value } => {
            if s.step(m) is Ok {
                supply_laws::lemma_supply_decreased_accounted(s, caller, value);
            }
        },
        Message::CreatePayment { caller, seller, value } => {
            if s.step(m) is Ok {
                supply_laws::lemma_payment_created_accounted(s, caller, seller, value);
            }
        },
        Message::CompletePayment { caller, from, to } => {
            if s.step(m) is Ok {
                supply_laws::lemma_payment_completed_accounted(s, caller, from, to);
            }
        },
        Message::Refund { caller, from, to } => {
            if s.step(m) is Ok {
                supply_laws::lemma_payment_refunded_accounted(s, caller, from, to);
            }
        },
        _ => {},
    }
}

/// After any history without overflow, the supply is still accounted for:
/// the tokens on all accounts and in all escrows add up to the total supply.
pub proof fn law_history_keeps_supply_accounted(v: StableCurrencyView, history: Seq<Message>, k: nat)
    requires
        v.supply_accounted(),
        k <= history.len(),
        overflow_free(v, history, k),
    ensures
        state_after(v, history, k).supply_accounted(),
    decreases k,
{
    if k > 0 {
        let j = (k - 1) as nat;
        law_history_keeps_supply_accounted(v, history, j);
        assert(state_after(v, history, j).no_overflow(history[j as int]));
        lemma_after_keeps_supply(state_after(v, history, j), history[j as int]);
    }
}

/// No message changes the token's symbol.
pub proof fn law_symbol_never_changes(v: StableCurrencyView, history: Seq<Message>, k: nat)
    ensures
        state_after(v, history, k).symbol == v.symbol,
    decreases k,
{
    if k > 0 {
        law_symbol_never_changes(v, history, (k - 1) as nat);
    }
}

/// What message `m` mints in state `s`: its value if it is a successful
/// `inc_supply`, else 0.
pub open spec fn mint_of(s: StableCurrencyView, m: Message) -> int {
    match m {
        Message::IncSupply { caller, value } => if s.step(m) is Ok {
            value as int
        } else {
            0
        },
        _ => 0,
    }
}

/// What message `m` burns in state `s`: its value if it is a successful
/// `dec_supply`, else 0.
pub open spec fn burn_of(s: StableCurrencyView, m: Message) -> int {
    match m {
        Message::DecSupply { caller, value } => if s.step(m) is Ok {
            value as int
        } else {
            0
        },
        _ => 0,
    }
}

/// All that the first `k` messages of `history` mint.
pub open spec fn minted(v: StableCurrencyView, history: Seq<Message>, k: nat) -> int
    decreases k,
{
    if k == 0 {
        0
    } else {
        minted(v, history, (k - 1) as nat) + mint_of(state_after(v, history, (k - 1) as nat), history[k - 1])
    }
}

/// All that the first `k` messages of `history` burn.
pub open spec fn burned(v: StableCurrencyView, history: Seq<Message>, k: nat) -> int
    decreases k,
{
    if k == 0 {
        0
    } else {
        burned(v, history, (k - 1) as nat) + burn_of(state_after(v, history, (k - 1) as nat), history[k - 1])
    }
}

proof fn lemma_after_supply(s: StableCurrencyView, m: Message)
    requires
        s.supply_accounted(),
        s.no_overflow(m),
    ensures
        s.after(m).total_supply == s.total_supply + mint_of(s, m) - burn_of(s, m),
{
    if let Message::DecSupply { caller, value } = m {
        lemma_amount_at_most_total(s.balances, caller);
        lemma_total_of_nonneg(s.escrow);
    }
}

/// After any history without overflow, the total supply is the initial
/// supply plus all that was minted less all that was burned.
pub proof fn law_supply_is_mints_less_burns(v: StableCurrencyView, history: Seq<Message>, k: nat)
    requires
        v.supply_accounted(),
        k <= history.len(),
        overflow_free(v, history, k),
    ensures
        state_after(v, history, k).total_supply == v.total_supply + minted(v, history, k) - burned(
            v,
            history,
            k,
        ),
    decreases k,
{
    if k > 0 {
        let j = (k - 1) as nat;
        law_supply_is_mints_less_burns(v, history, j);
        law_history_keeps_supply_accounted(v, history, j);
        assert(state_after(v, history, j).no_overflow(history[j as int]));
        lemma_after_supply(state_after(v, history, j), history[j as int]);
    }
}

/// Message `m` is an approval by `owner` for `spender`.
pub open spec fn approves(m: Message, owner: AccountId, spender: AccountId) -> bool {
    match m {
        Message::Approve { caller, spender: sp, value } => caller == owner && sp == spender,
        _ => false,
    }
}

/// The amount that an approval sets.
pub open spec fn approved_value(m: Message) -> int {
    match m {
        Message::Approve { caller, spender, value } => value as int,
        _ => 0,
    }
}

/// What message `m` spends in state `s` of the allowance that `owner` gave
/// `spender`: its value if it is a successful `transfer_from` by `spender`
/// out of `owner`'s account, else 0.
pub open spec fn spend_of(s: StableCurrencyView, m: Message, owner: AccountId, spender: AccountId) -> int {
    match m {
        Message::TransferFrom { caller, from, to, value } => if caller == spender && from == owner && s.step(
            m,
        ) is Ok {
            value as int
        } else {
            0
        },
        _ => 0,
    }
}

/// All that messages `start` to `k - 1` of `history` spend of the allowance
/// that `owner` gave `spender`.
pub open spec fn spent_between(
    v: StableCurrencyView,
    history: Seq<Message>,
    start: nat,
    k: nat,
    owner: AccountId,
    spender: AccountId,
) -> int
    decreases k,
{
    if k <= start {
        0
    } else {
        spent_between(v, history, start, (k - 1) as nat, owner, spender) + spend_of(
            state_after(v, history, (k - 1) as nat),
            history[k - 1],
            owner,
            spender,
        )
    }
}

proof fn lemma_after_allowance(s: StableCurrencyView, m: Message, owner: AccountId, spender: AccountId)
    ensures
        s.after(m).allowance_of(owner, spender) == if approves(m, owner, spender) {
            approved_value(m)
        } else {
            s.allowance_of(owner, spender) - spend_of(s, m, owner, spender)
        },
{
}

/// The allowance that `owner` gave `spender` is the value of `owner`'s last
/// approval for `spender` (message `i`), less every successful spend of it
/// by `spender` since.
pub proof fn law_allowance_is_last_approval_less_spends(
    v: StableCurrencyView,
    history: Seq<Message>,
    i: nat,
    k: nat,
    owner: AccountId,
    spender: AccountId,
)
    requires
        i < k <= history.len(),
        approves(history[i as int], owner, spender),
        forall|j: nat| i < j < k ==> !approves(#[trigger] history[j as int], owner, spender),
    ensures
        state_after(v, history, k).allowance_of(owner, spender) == approved_value(history[i as int])
            - spent_between(v, history, i + 1, k, owner, spender),
    decreases k,
{
    let j = (k - 1) as nat;
    lemma_after_allowance(state_after(v, history, j), history[j as int], owner, spender);
    if j > i {
        assert(!approves(history[j as int], owner, spender));
        law_allowance_is_last_approval_less_spends(v, history, i, j, owner, spender);
    }
}

/// Where `owner` never approved `spender`, the allowance is what it was at
/// the start, less every successful spend of it since.
pub proof fn law_allowance_without_approval(
    v: StableCurrencyView,
    history: Seq<Message>,
    k: nat,
    owner: AccountId,
    spender: AccountId,
)
    requires
        k <= history.len(),
        forall|j: nat| j < k ==> !approves(#[trigger] history[j as int], owner, spender),
    ensures
        state_after(v, history, k).allowance_of(owner, spender) == v.allowance_of(owner, spender)
            - spent_between(v, history, 0, k, owner, spender),
    decreases k,
{
    if k > 0 {
        let j = (k - 1) as nat;
        assert(!approves(history[j as int], owner, spender));
        lemma_after_allowance(state_after(v, history, j), history[j as int], owner, spender);
        law_allowance_without_approval(v, history, j, owner, spender);
    }
}

/// Message `m` settles the escrow from `buyer` to `seller` (paying it out or
/// refunding it), if it succeeds.
pub open spec fn settles(m: Message, buyer: AccountId, seller: AccountId) -> bool {
    match m {
        Message::CompletePayment { caller, from, to } => from == buyer && to == seller,
        Message::Refund { caller, from, to } => from == buyer && to == seller,
        _ => false,
    }
}

/// Message `j` of `history` successfully settles the escrow from `buyer` to
/// `seller`.
pub open spec fn settled_at(
    v: StableCurrencyView,
    history: Seq<Message>,
    j: nat,
    buyer: AccountId,
    seller: AccountId,
) -> bool {
    settles(history[j as int], buyer, seller) && succeeds(v, history, j)
}

/// What message `m` pays in state `s` into the escrow from `buyer` to
/// `seller`: the amount of a successful `create_payment` by `buyer` for
/// `seller`, else 0.
pub open spec fn payment_of(s: StableCurrencyView, m: Message, buyer: AccountId, seller: AccountId) -> int {
    match m {
        Message::CreatePayment { caller, seller: to, value } => if caller == buyer && to == seller && s.step(
            m,
        ) is Ok {
            payment_amount(value) as int
        } else {
            0
        },
        _ => 0,
    }
}

/// All that messages `start` to `k - 1` of `history` pay into the escrow
/// from `buyer` to `seller`.
pub open spec fn paid_between(
    v: StableCurrencyView,
    history: Seq<Message>,
    start: nat,
    k: nat,
    buyer: AccountId,
    seller: AccountId,
) -> int
    decreases k,
{
    if k <= start {
        0
    } else {
        paid_between(v, history, start, (k - 1) as nat, buyer, seller) + payment_of(
            state_after(v, history, (k - 1) as nat),
            history[k - 1],
            buyer,
            seller,
        )
    }
}

proof fn lemma_after_escrow(s: StableCurrencyView, m: Message, buyer: AccountId, seller: AccountId)
    requires
        s.supply_accounted(),
    ensures
        s.after(m).escrow_of(buyer, seller) == if settles(m, buyer, seller) && s.step(m) is Ok {
            0
        } else {
            s.escrow_of(buyer, seller) + payment_of(s, m, buyer, seller)
        },
{
    if let Message::CreatePayment { caller, seller: to, value } = m {
        lemma_amount_at_most_total(s.balances, caller);
        lemma_amount_at_most_total(s.escrow, (caller, to));
    }
}

/// The escrow from `buyer` to `seller` holds the sum of what the buyer paid
/// into it since it was last settled (message `i`).
pub proof fn law_escrow_is_payments_since_settlement(
    v: StableCurrencyView,
    history: Seq<Message>,
    i: nat,
    k: nat,
    buyer: AccountId,
    seller: AccountId,
)
    requires
        v.supply_accounted(),
        i < k <= history.len(),
        overflow_free(v, history, k),
        settled_at(v, history, i, buyer, seller),
        forall|j: nat| i < j < k ==> !#[trigger] settled_at(v, history, j, buyer, seller),
    ensures
        state_after(v, history, k).escrow_of(buyer, seller) == paid_between(v, history, i + 1, k, buyer, seller),
    decreases k,
{
    let j = (k - 1) as nat;
    law_history_keeps_supply_accounted(v, history, j);
    lemma_after_escrow(state_after(v, history, j), history[j as int], buyer, seller);
    if j > i {
        assert(!settled_at(v, history, j, buyer, seller));
        law_escrow_is_payments_since_settlement(v, history, i, j, buyer, seller);
    }
}

/// Where the escrow from `buyer` to `seller` was never settled, it holds
/// what it held at the start plus all that the buyer paid into it since.
pub proof fn law_escrow_without_settlement(
    v: StableCurrencyView,
    history: Seq<Message>,
    k: nat,
    buyer: AccountId,
    seller: AccountId,
)
    requires
        v.supply_accounted(),
        k <= history.len(),
        overflow_free(v, history, k),
        forall|j: nat| j < k ==> !#[trigger] settled_at(v, history, j, buyer, seller),
    ensures
        state_after(v, history, k).escrow_of(buyer, seller) == v.escrow_of(buyer, seller) + paid_between(
            v,
            history,
            0,
            k,
            buyer,
            seller,
        ),
    decreases k,
{
    if k > 0 {
        let j = (k - 1) as nat;
        law_history_keeps_supply_accounted(v, history, j);
        lemma_after_escrow(state_after(v, history, j), history[j as int], buyer, seller);
        assert(!settled_at(v, history, j, buyer, seller));
        law_escrow_without_settlement(v, history, j, buyer, seller);
    }
}

} // verus!

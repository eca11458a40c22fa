# token_contracts

Verified models of two ink! token contracts.

- `src/stable_currency.rs` — a stable currency: balances, allowances, an owner
  who mints and burns, and an escrow for payments with a one-percent fee. Each
  message is stated as a step on `StableCurrencyView`; its contract says that
  the message takes exactly that step, or fails with the step's error and
  changes nothing.
- `src/supply_laws.rs` — every step keeps the supply accounted for: the tokens
  on all accounts and in all escrows add up to the total supply. This is the
  contract's invariant (`StableCurrency::wf`).
- `src/ledger_laws.rs` — what the steps mean for single accounts (transfers,
  allowances, minting and burning, payments and refunds, fees).
- `src/history_laws.rs` — laws over any history of messages: the symbol
  never changes, the supply stays accounted for and equals the initial supply
  plus mints less burns, an allowance is the last approval less later spends,
  and an escrow is the sum of payments since it was last settled.
- `src/erc1400.rs` — the storage of an ERC-1400 token (with its documents,
  partitions, operators and controllers) and its constructor.
- `src/tables.rs` — the contract storage: ink!'s storage hash maps behind
  trusted wrappers whose contracts name what each map holds.
- `src/sums.rs` — sums of the amounts in a finite map, with their lemmas.
- `src/account.rs` — accounts as 32 bytes, and their comparison.

The caller of each message is an explicit argument and events are returned as
values; `app/` reads the caller from the ink! environment and emits the events.

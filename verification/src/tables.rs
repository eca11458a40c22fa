//! The contract storage: ink!'s storage hash maps, one table type per kind of
//! entry. Verus sees none of a table's insides; what each table holds is named
//! by an uninterpreted spec function, and each operation that the contracts
//! use is a trusted wrapper whose contract states, over that name, what the
//! operation of `ink_storage::collections::HashMap` does.
//!
//! All tables here are built by `HashMap::new`, which sets no storage key, so
//! every read and write goes to the map's in-memory cache and never to the
//! chain's storage.
use vstd::prelude::*;
use crate::account::{AccountId, Balance, PartitionHash};

verus! {

/// The largest number of keys that a storage hash map can count: it counts
/// them in a `u32`.
pub open spec fn table_capacity() -> nat {
    4294967295
}

/// A table from accounts to amounts (balances), held in an
/// `ink_storage::collections::HashMap`.
#[verifier::external_body]
pub struct BalanceTable {
    inner: ink_storage::collections::HashMap<AccountId, Balance>,
}

/// What a `BalanceTable` holds.
pub uninterp spec fn balance_entries(t: BalanceTable) -> Map<AccountId, u128>;

/// A table from pairs of 32-byte keys to amounts (allowances, escrows, and
/// balances by partition), held in an `ink_storage::collections::HashMap`.
#[verifier::external_body]
pub struct PairTable {
    inner: ink_storage::collections::HashMap<(AccountId, AccountId), Balance>,
}

/// What a `PairTable` holds.
pub uninterp spec fn pair_entries(t: PairTable) -> Map<(AccountId, AccountId), u128>;

/// A table from accounts to the list of partitions that they hold, held in
/// an `ink_storage::collections::HashMap`.
#[verifier::external_body]
pub struct PartitionTable {
    inner: ink_storage::collections::HashMap<AccountId, std::vec::Vec<PartitionHash>>,
}

/// What a `PartitionTable` holds, each list taken by its view.
pub uninterp spec fn partition_entries(t: PartitionTable) -> Map<AccountId, Seq<PartitionHash>>;

/// A table from accounts to flags (operators and controllers), held in an
/// `ink_storage::collections::HashMap`.
#[verifier::external_body]
pub struct FlagTable {
    inner: ink_storage::collections::HashMap<AccountId, bool>,
}

/// What a `FlagTable` holds.
pub uninterp spec fn flag_entries(t: FlagTable) -> Map<AccountId, bool>;

/// A table from (account, partition) pairs to flags, held in an
/// `ink_storage::collections::HashMap`.
#[verifier::external_body]
pub struct PairFlagTable {
    inner: ink_storage::collections::HashMap<(AccountId, PartitionHash), bool>,
}

/// What a `PairFlagTable` holds.
pub uninterp spec fn pair_flag_entries(t: PairFlagTable) -> Map<(AccountId, PartitionHash), bool>;

pub open spec fn no_balances() -> Map<AccountId, u128> {
    Map::empty()
}

pub open spec fn no_pairs() -> Map<(AccountId, AccountId), u128> {
    Map::empty()
}

pub open spec fn no_partitions() -> Map<AccountId, Seq<PartitionHash>> {
    Map::empty()
}

pub open spec fn no_flags() -> Map<AccountId, bool> {
    Map::empty()
}

pub open spec fn no_pair_flags() -> Map<(AccountId, PartitionHash), bool> {
    Map::empty()
}

impl BalanceTable {
    /// `HashMap::new`: the new map holds nothing.
    #[verifier::external_body]
    pub(crate) fn new() -> (table: BalanceTable)
        ensures
            balance_entries(table) == no_balances(),
    {
        BalanceTable { inner: ink_storage::collections::HashMap::new() }
    }

    /// `HashMap::get`: the value held under `key`, if any, copied out.
    #[verifier::external_body]
    pub(crate) fn get(&self, key: &AccountId) -> (found: Option<Balance>)
        ensures
            found == (if balance_entries(*self).contains_key(*key) {
                Some(balance_entries(*self)[*key])
            } else {
                None
            }),
    {
        self.inner.get(key).copied()
    }

    /// `HashMap::insert`: afterwards `key` holds `value` and nothing else has
    /// changed. The map counts its keys in a `u32` and adds one for a new key,
    /// so a new key is only taken while that count has room.
    #[verifier::external_body]
    pub(crate) fn insert(&mut self, key: AccountId, value: Balance)
        requires
            balance_entries(*old(self)).dom().insert(key).len() <= table_capacity(),
        ensures
            balance_entries(*final(self)) == balance_entries(*old(self)).insert(key, value),
    {
        self.inner.insert(key, value);
    }

    /// `HashMap::len`: the number of keys held.
    #[verifier::external_body]
    pub(crate) fn len(&self) -> (count: u32)
        ensures
            count == balance_entries(*self).dom().len(),
    {
        self.inner.len()
    }
}

impl PairTable {
    /// `HashMap::new`: the new map holds nothing.
    #[verifier::external_body]
    pub(crate) fn new() -> (table: PairTable)
        ensures
            pair_entries(table) == no_pairs(),
    {
        PairTable { inner: ink_storage::collections::HashMap::new() }
    }

    /// `HashMap::get`: the value held under `key`, if any, copied out.
    #[verifier::external_body]
    pub(crate) fn get(&self, key: &(AccountId, AccountId)) -> (found: Option<Balance>)
        ensures
            found == (if pair_entries(*self).contains_key(*key) {
                Some(pair_entries(*self)[*key])
            } else {
                None
            }),
    {
        self.inner.get(key).copied()
    }

    /// `HashMap::insert`: afterwards `key` holds `value` and nothing else has
    /// changed; a new key is only taken while the `u32` key count has room.
    #[verifier::external_body]
    pub(crate) fn insert(&mut self, key: (AccountId, AccountId), value: Balance)
        requires
            pair_entries(*old(self)).dom().insert(key).len() <= table_capacity(),
        ensures
            pair_entries(*final(self)) == pair_entries(*old(self)).insert(key, value),
    {
        self.inner.insert(key, value);
    }

    /// `HashMap::len`: the number of keys held.
    #[verifier::external_body]
    pub(crate) fn len(&self) -> (count: u32)
        ensures
            count == pair_entries(*self).dom().len(),
    {
        self.inner.len()
    }
}

impl PartitionTable {
    /// `HashMap::new`: the new map holds nothing.
    #[verifier::external_body]
    pub(crate) fn new() -> (table: PartitionTable)
        ensures
            partition_entries(table) == no_partitions(),
    {
        PartitionTable { inner: ink_storage::collections::HashMap::new() }
    }
}

impl FlagTable {
    /// `HashMap::new`: the new map holds nothing.
    #[verifier::external_body]
    pub(crate) fn new() -> (table: FlagTable)
        ensures
            flag_entries(table) == no_flags(),
    {
        FlagTable { inner: ink_storage::collections::HashMap::new() }
    }
}

impl PairFlagTable {
    /// `HashMap::new`: the new map holds nothing.
    #[verifier::external_body]
    pub(crate) fn new() -> (table: PairFlagTable)
        ensures
            pair_flag_entries(table) == no_pair_flags(),
    {
        PairFlagTable { inner: ink_storage::collections::HashMap::new() }
    }
}

} // verus!

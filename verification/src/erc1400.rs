//! The storage of an ERC-1400 security token: balances and allowances, token
//! partitions with their own balances, operators and controllers.
use vstd::prelude::*;
use crate::account::{AccountId, Balance, PartitionHash};
use crate::tables::{
    balance_entries,
    flag_entries,
    pair_entries,
    pair_flag_entries,
    partition_entries,
    BalanceTable,
    FlagTable,
    PairFlagTable,
    PairTable,
    PartitionTable,
};

verus! {

/// Event emitted when tokens of a partition move.
#[derive(Debug, Clone, Copy, PartialEq, Eq)]
pub struct TransferByPartition {
    pub from: Option<AccountId>,
    pub to: Option<AccountId>,
    pub amount: Option<AccountId>,
    pub data: Option<AccountId>,
}

/// A document attached to the token (ERC-1400's `setDocument`): its name,
/// the URI where it lives, the hash of its content and when it was last set.
#[derive(Debug, Clone, PartialEq, Eq)]
pub struct Document {
    pub name: [u8; 32],
    pub uri: String,
    pub document_hash: [u8; 32],
    pub timestamp: u64,
}

/// The contract's storage.
pub struct Erc1400 {
    symbol: String,
    granularity: Balance,
    total_supply: Balance,
    balances: BalanceTable,
    allow: BalanceTable,
    documents: Vec<Document>,
    total_paritions: Vec<PartitionHash>,
    partitions_of: PartitionTable,
    balance_of_partition: PairTable,
    owner: AccountId,
    authorized_operator: FlagTable,
    controllers: FlagTable,
    allow_by_partition: PairTable,
    authorized_operator_by_partition: PairFlagTable,
    controllers_by_partition: PairFlagTable,
}

/// The token's state as mathematics.
#[verifier::ext_equal]
pub struct Erc1400View {
    pub symbol: Seq<char>,
    pub granularity: u128,
    pub total_supply: u128,
    pub balances: Map<AccountId, u128>,
    pub allow: Map<AccountId, u128>,
    pub documents: Seq<Document>,
    pub total_partitions: Seq<PartitionHash>,
    pub partitions_of: Map<AccountId, Seq<PartitionHash>>,
    pub balance_of_partition: Map<(AccountId, PartitionHash), u128>,
    pub owner: AccountId,
    pub authorized_operator: Map<AccountId, bool>,
    pub controllers: Map<AccountId, bool>,
    pub allow_by_partition: Map<(AccountId, PartitionHash), u128>,
    pub authorized_operator_by_partition: Map<(AccountId, PartitionHash), bool>,
    pub controllers_by_partition: Map<(AccountId, PartitionHash), bool>,
}

impl Erc1400View {
    /// A token just created by `creator`: no supply, no documents, no
    /// partitions, nobody authorized, and `creator` its owner.
    pub open spec fn created(creator: AccountId, token_symbol: Seq<char>, granularity: u128) -> Self {
        Erc1400View {
            symbol: token_symbol,
            granularity,
            total_supply: 0,
            balances: Map::empty(),
            allow: Map::empty(),
            documents: Seq::empty(),
            total_partitions: Seq::empty(),
            partitions_of: Map::empty(),
            balance_of_partition: Map::empty(),
            owner: creator,
            authorized_operator: Map::empty(),
            controllers: Map::empty(),
            allow_by_partition: Map::empty(),
            authorized_operator_by_partition: Map::empty(),
            controllers_by_partition: Map::empty(),
        }
    }
}

impl View for Erc1400 {
    type V = Erc1400View;

    closed spec fn view(&self) -> Erc1400View {
        Erc1400View {
            symbol: self.symbol@,
            granularity: self.granularity,
            total_supply: self.total_supply,
            balances: balance_entries(self.balances),
            allow: balance_entries(self.allow),
            documents: self.documents@,
            total_partitions: self.total_paritions@,
            partitions_of: partition_entries(self.partitions_of),
            balance_of_partition: pair_entries(self.balance_of_partition),
            owner: self.owner,
            authorized_operator: flag_entries(self.authorized_operator),
            controllers: flag_entries(self.controllers),
            allow_by_partition: pair_entries(self.allow_by_partition),
            authorized_operator_by_partition: pair_flag_entries(self.authorized_operator_by_partition),
            controllers_by_partition: pair_flag_entries(self.controllers_by_partition),
        }
    }
}

impl Erc1400 {
    /// Creates the token; `caller` becomes its owner.
    pub fn new(caller: AccountId, token_symbol: String, granularity: Balance) -> (token: Self)
        ensures
            token@ == Erc1400View::created(caller, token_symbol@, granularity),
            token@.documents.len() == 0,
    {
        let token = Erc1400 {
            symbol: token_symbol,
            granularity,
            total_supply: 0,
            balances: BalanceTable::new(),
            allow: BalanceTable::new(),
            documents: Vec::new(),
            total_paritions: Vec::new(),
            partitions_of: PartitionTable::new(),
            balance_of_partition: PairTable::new(),
            owner: caller,
            authorized_operator: FlagTable::new(),
            controllers: FlagTable::new(),
            allow_by_partition: PairTable::new(),
            authorized_operator_by_partition: PairFlagTable::new(),
            controllers_by_partition: PairFlagTable::new(),
        };
        proof {
            assert(token@ =~= Erc1400View::created(caller, token_symbol@, granularity));
        }
        token
    }
}

} // verus!

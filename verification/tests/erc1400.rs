use token_contracts::account::{same_account, AccountId};
use token_contracts::erc1400::{Document, Erc1400, TransferByPartition};

/// The token's tables are storage hash maps; building them off-chain must not
/// reach for the chain's storage (which would panic here).
#[test]
fn erc1400_new_builds_token() {
    let token = Erc1400::new(AccountId::from([0x1; 32]), "SEC".to_string(), 1);
    let other = Erc1400::new(AccountId::from([0x2; 32]), String::new(), 0);
    drop(token);
    drop(other);
}

#[test]
fn document_holds_its_fields() {
    let doc = Document { name: [0x3; 32], uri: "ipfs://doc".to_string(), document_hash: [0x4; 32], timestamp: 7 };
    assert_eq!(doc.clone(), doc);
    assert_eq!(doc.uri, "ipfs://doc");
    assert_eq!(doc.timestamp, 7);
}

#[test]
fn transfer_by_partition_event_holds_its_fields() {
    let event = TransferByPartition {
        from: Some([0x1; 32]),
        to: Some([0x2; 32]),
        amount: None,
        data: None,
    };
    assert_eq!(event.clone(), event);
    assert_eq!(event.to, Some([0x2; 32]));
}

#[test]
fn same_account_compares_all_bytes() {
    let a: AccountId = [0x1; 32];
    let mut b: AccountId = [0x1; 32];
    assert!(same_account(&a, &b));
    b[31] = 0x2;
    assert!(!same_account(&a, &b));
    b[31] = 0x1;
    b[0] = 0x0;
    assert!(!same_account(&a, &b));
}

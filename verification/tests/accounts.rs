use delegated_transfer::accounts::next_account;
use delegated_transfer::{AccountRecord, AccountRoles, Identity, TransferError};

fn record(tag: u8) -> AccountRecord {
    AccountRecord { key: Identity::new([tag; 32]), data: vec![tag] }
}

#[test]
fn identity_keeps_its_bytes() {
    let mut bytes = [0u8; 32];
    bytes[31] = 9;
    assert_eq!(Identity::new(bytes).to_bytes(), bytes);
}

#[test]
fn identities_compare_by_all_bytes() {
    let a = Identity::new([7; 32]);
    let mut other = [7u8; 32];
    assert!(a.same_as(&Identity::new(other)));
    other[31] = 8;
    assert!(!a.same_as(&Identity::new(other)));
    other[31] = 7;
    other[0] = 6;
    assert!(!a.same_as(&Identity::new(other)));
}

#[test]
fn cursor_walks_the_list_once() {
    let accounts = vec![record(1), record(2)];
    let mut cursor = 0usize;
    assert_eq!(next_account(&accounts, &mut cursor).unwrap().key, Identity::new([1; 32]));
    assert_eq!(cursor, 1);
    assert_eq!(next_account(&accounts, &mut cursor).unwrap().key, Identity::new([2; 32]));
    assert_eq!(cursor, 2);
    assert!(matches!(next_account(&accounts, &mut cursor), Err(TransferError::MissingAccount)));
    assert_eq!(cursor, 2);
}

#[test]
fn five_accounts_take_their_roles_in_order() {
    let accounts: Vec<AccountRecord> = (1..=5).map(record).collect();
    let roles = AccountRoles::resolve(&accounts).unwrap();
    assert_eq!(roles.source.key, Identity::new([1; 32]));
    assert_eq!(roles.mint.key, Identity::new([2; 32]));
    assert_eq!(roles.destination.key, Identity::new([3; 32]));
    assert_eq!(roles.authority.key, Identity::new([4; 32]));
    assert_eq!(roles.ledger_service.key, Identity::new([5; 32]));
    assert_eq!(roles.source.data, vec![1]);
}

#[test]
fn a_sixth_account_is_ignored() {
    let accounts: Vec<AccountRecord> = (1..=6).map(record).collect();
    let roles = AccountRoles::resolve(&accounts).unwrap();
    assert_eq!(roles.ledger_service.key, Identity::new([5; 32]));
}

#[test]
fn four_accounts_are_too_few() {
    let accounts: Vec<AccountRecord> = (1..=4).map(record).collect();
    assert!(matches!(AccountRoles::resolve(&accounts), Err(TransferError::MissingAccount)));
}

#[test]
fn no_accounts_are_too_few() {
    assert!(matches!(AccountRoles::resolve(&[]), Err(TransferError::MissingAccount)));
}

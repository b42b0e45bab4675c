use delegated_transfer::{
    process_instruction, AccountRecord, DerivedAuthority, ErrorKind, Identity, SignedTransfer,
};
use solana_program::account_info::AccountInfo;
use solana_program::program_option::COption;
use solana_program::program_pack::Pack;
use solana_program::pubkey::Pubkey;
use spl_token::processor::Processor;
use spl_token::state::{Account, AccountState, Mint};

const SOURCE: [u8; 32] = [1; 32];
const MINT: [u8; 32] = [2; 32];
const DESTINATION: [u8; 32] = [3; 32];

fn program() -> Identity {
    Identity::new([42; 32])
}

fn authority() -> DerivedAuthority {
    DerivedAuthority::derive(&program()).unwrap()
}

fn token_account(owner: [u8; 32], amount: u64) -> Vec<u8> {
    let account = Account {
        mint: Pubkey::new_from_array(MINT),
        owner: Pubkey::new_from_array(owner),
        amount,
        delegate: COption::None,
        state: AccountState::Initialized,
        is_native: COption::None,
        delegated_amount: 0,
        close_authority: COption::None,
    };
    let mut data = vec![0u8; Account::LEN];
    Account::pack(account, &mut data).unwrap();
    data
}

fn mint(decimals: u8) -> Vec<u8> {
    let mint = Mint {
        mint_authority: COption::None,
        supply: 1_000,
        decimals,
        is_initialized: true,
        freeze_authority: COption::None,
    };
    let mut data = vec![0u8; Mint::LEN];
    Mint::pack(mint, &mut data).unwrap();
    data
}

fn accounts(source_balance: u64, authority_slot: Identity) -> Vec<AccountRecord> {
    let owner = authority().identity.to_bytes();
    vec![
        AccountRecord { key: Identity::new(SOURCE), data: token_account(owner, source_balance) },
        AccountRecord { key: Identity::new(MINT), data: mint(6) },
        AccountRecord { key: Identity::new(DESTINATION), data: token_account([8; 32], 0) },
        AccountRecord { key: authority_slot, data: vec![] },
        AccountRecord { key: Identity::new(spl_token::id().to_bytes()), data: vec![] },
    ]
}

fn balance(record: &AccountRecord) -> u64 {
    Account::unpack(&record.data).unwrap().amount
}

/// Stands in for the runtime: hands the call to the ledger service with the
/// authority's signature attached, and writes the records back.
fn send(transfer: &SignedTransfer, records: &mut [AccountRecord]) {
    let keys: Vec<Pubkey> =
        transfer.call.accounts.iter().map(|a| Pubkey::new_from_array(a.key.to_bytes())).collect();
    let mut data: Vec<Vec<u8>> = transfer
        .call
        .accounts
        .iter()
        .map(|a| records.iter().find(|r| r.key == a.key).unwrap().data.clone())
        .collect();
    let mut lamports = vec![0u64; keys.len()];
    let ledger = Pubkey::new_from_array(transfer.call.program.to_bytes());
    let system = Pubkey::default();
    {
        let infos: Vec<AccountInfo> = keys
            .iter()
            .zip(transfer.call.accounts.iter())
            .zip(data.iter_mut().zip(lamports.iter_mut()))
            .map(|((key, role), (data, lamports))| {
                let owner = if data.is_empty() { &system } else { &ledger };
                AccountInfo::new(
                    key,
                    role.is_signer,
                    role.is_writable,
                    lamports,
                    data.as_mut_slice(),
                    owner,
                    false,
                    0,
                )
            })
            .collect();
        Processor::process(&ledger, &infos, &transfer.call.data).unwrap();
    }
    for (role, data) in transfer.call.accounts.iter().zip(data) {
        records.iter_mut().find(|r| r.key == role.key).unwrap().data = data;
    }
}

#[test]
fn covered_transfer_by_the_derived_authority_goes_through() {
    let mut records = accounts(100, authority().identity);
    let transfer = process_instruction(&program(), &records, &[40, 0, 0, 0, 0, 0, 0, 0]).unwrap();
    assert_eq!(transfer.amount, 40);
    assert_eq!(transfer.decimals, 6);
    assert_eq!(transfer.authority, authority());
    assert_eq!(transfer.call.program.to_bytes(), spl_token::id().to_bytes());
    assert_eq!(transfer.call.data, vec![12, 40, 0, 0, 0, 0, 0, 0, 0, 6]);
    assert_eq!(transfer.call.accounts.len(), 4);
    assert_eq!(transfer.call.accounts[0].key, Identity::new(SOURCE));
    assert_eq!(transfer.call.accounts[1].key, Identity::new(MINT));
    assert_eq!(transfer.call.accounts[2].key, Identity::new(DESTINATION));
    assert_eq!(transfer.call.accounts[3].key, authority().identity);
    assert!(transfer.call.accounts[3].is_signer);

    send(&transfer, &mut records);
    assert_eq!(balance(&records[0]), 60);
    assert_eq!(balance(&records[2]), 40);
}

#[test]
fn the_sum_of_the_balances_is_kept() {
    for (held, amount) in [(100u64, 0u64), (100, 1), (100, 100), (7, 3)] {
        let mut records = accounts(held, authority().identity);
        let data = amount.to_le_bytes();
        let transfer = process_instruction(&program(), &records, &data).unwrap();
        send(&transfer, &mut records);
        assert_eq!(balance(&records[0]), held - amount);
        assert_eq!(balance(&records[2]), amount);
        assert_eq!(balance(&records[0]) + balance(&records[2]), held);
    }
}

#[test]
fn a_foreign_authority_is_unauthorized() {
    let records = accounts(100, Identity::new([9; 32]));
    let before = records.clone();
    let r = process_instruction(&program(), &records, &[40, 0, 0, 0, 0, 0, 0, 0]);
    assert_eq!(r.unwrap_err().kind(), ErrorKind::Unauthorized);
    assert_eq!(balance(&records[0]), 100);
    assert_eq!(balance(&records[2]), 0);
    assert_eq!(records[0].data, before[0].data);
    assert_eq!(records[2].data, before[2].data);
}

#[test]
fn an_overdraft_is_insufficient_funds() {
    let records = accounts(10, authority().identity);
    let r = process_instruction(&program(), &records, &[40, 0, 0, 0, 0, 0, 0, 0]);
    assert_eq!(r.unwrap_err().kind(), ErrorKind::InsufficientFunds);
    assert_eq!(balance(&records[0]), 10);
    assert_eq!(balance(&records[2]), 0);
}

#[test]
fn the_whole_balance_can_be_moved() {
    let records = accounts(10, authority().identity);
    let transfer = process_instruction(&program(), &records, &[10, 0, 0, 0, 0, 0, 0, 0]).unwrap();
    assert_eq!(transfer.amount, 10);
}

#[test]
fn instruction_bytes_are_checked_before_any_account() {
    for data in [&[][..], &[40][..], &[40, 0, 0, 0, 0, 0, 0][..], &[40, 0, 0, 0, 0, 0, 0, 0, 0][..]]
    {
        let r = process_instruction(&program(), &[], data);
        assert_eq!(r.unwrap_err().kind(), ErrorKind::MalformedInput);
        let records = accounts(100, Identity::new([9; 32]));
        let r = process_instruction(&program(), &records, data);
        assert_eq!(r.unwrap_err().kind(), ErrorKind::MalformedInput);
    }
}

#[test]
fn a_short_account_list_is_refused() {
    let mut records = accounts(100, authority().identity);
    records.pop();
    let r = process_instruction(&program(), &records, &[40, 0, 0, 0, 0, 0, 0, 0]);
    assert_eq!(r.unwrap_err().kind(), ErrorKind::MissingAccount);
}

#[test]
fn accounts_are_counted_before_the_authority_is_checked() {
    let mut records = accounts(100, Identity::new([9; 32]));
    records.pop();
    let r = process_instruction(&program(), &records, &[40, 0, 0, 0, 0, 0, 0, 0]);
    assert_eq!(r.unwrap_err().kind(), ErrorKind::MissingAccount);
}

#[test]
fn the_authority_is_checked_before_the_records_are_read() {
    let mut records = accounts(10, Identity::new([9; 32]));
    records[0].data = vec![0; 3];
    let r = process_instruction(&program(), &records, &[40, 0, 0, 0, 0, 0, 0, 0]);
    assert_eq!(r.unwrap_err().kind(), ErrorKind::Unauthorized);
}

#[test]
fn a_malformed_source_record_is_refused() {
    let mut records = accounts(100, authority().identity);
    records[0].data.truncate(164);
    let r = process_instruction(&program(), &records, &[40, 0, 0, 0, 0, 0, 0, 0]);
    assert_eq!(r.unwrap_err().kind(), ErrorKind::MalformedAccountData);
}

#[test]
fn a_malformed_mint_record_is_refused() {
    let mut records = accounts(100, authority().identity);
    records[1].data = vec![0; 82];
    let r = process_instruction(&program(), &records, &[40, 0, 0, 0, 0, 0, 0, 0]);
    assert_eq!(r.unwrap_err().kind(), ErrorKind::MalformedAccountData);
}

#[test]
fn a_foreign_ledger_is_the_ledgers_refusal() {
    let mut records = accounts(100, authority().identity);
    records[4].key = Identity::new([5; 32]);
    let r = process_instruction(&program(), &records, &[40, 0, 0, 0, 0, 0, 0, 0]);
    assert_eq!(r.unwrap_err().kind(), ErrorKind::LedgerServiceError);
}

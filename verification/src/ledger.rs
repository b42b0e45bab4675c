use crate::error::TransferError;
use crate::identity::Identity;
use crate::instruction::le_u64;
use solana_program::program_error::ProgramError;
use solana_program::program_pack::Pack;
use solana_program::pubkey::Pubkey;
use spl_token::state::{Account, Mint};
use vstd::prelude::*;

verus! {

/// The identity of the token ledger service, the only program that a
/// transfer call can be addressed to.
pub open spec fn token_ledger_id() -> Seq<u8> {
    seq![
        6u8, 221u8, 246u8, 225u8, 215u8, 101u8, 161u8, 147u8, 217u8, 203u8, 225u8, 70u8, 206u8,
        235u8, 121u8, 172u8, 28u8, 180u8, 133u8, 237u8, 95u8, 91u8, 55u8, 145u8, 58u8, 140u8,
        245u8, 133u8, 126u8, 255u8, 0u8, 169u8,
    ]
}

/// The balance that the ledger service reads from a token account's record,
/// or `None` where it does not accept the bytes as such a record.
pub uninterp spec fn packed_account_amount(data: Seq<u8>) -> Option<u64>;

/// The decimal precision that the ledger service reads from a mint's
/// record, or `None` where it does not accept the bytes as such a record.
pub uninterp spec fn packed_mint_decimals(data: Seq<u8>) -> Option<u8>;

/// One account of a call to the ledger service, and how the call uses it.
#[derive(Clone, Copy, Debug, PartialEq, Eq)]
pub struct AccountRole {
    pub key: Identity,
    pub is_signer: bool,
    pub is_writable: bool,
}

/// A call to the ledger service: the program addressed, the accounts it
/// works on, and the instruction bytes.
#[derive(Clone, Debug, PartialEq, Eq)]
pub struct LedgerCall {
    pub program: Identity,
    pub accounts: Vec<AccountRole>,
    pub data: Vec<u8>,
}

impl AccountRole {
    pub open spec fn is(&self, key: Seq<u8>, is_signer: bool, is_writable: bool) -> bool {
        self.key@ == key && self.is_signer == is_signer && self.is_writable == is_writable
    }
}

impl LedgerCall {
    /// Whether this is the checked transfer of `amount`, at `decimals`
    /// digits, from `source` to `destination`, signed by `authority` alone:
    /// source and destination writable, mint and authority read-only, and
    /// the instruction bytes 12, the amount in little-endian, the decimals.
    pub open spec fn is_checked_transfer(
        &self,
        ledger: Seq<u8>,
        source: Seq<u8>,
        mint: Seq<u8>,
        destination: Seq<u8>,
        authority: Seq<u8>,
        amount: u64,
        decimals: u8,
    ) -> bool {
        &&& self.program@ == ledger
        &&& self.accounts@.len() == 4
        &&& self.accounts@[0].is(source, false, true)
        &&& self.accounts@[1].is(mint, false, false)
        &&& self.accounts@[2].is(destination, false, true)
        &&& self.accounts@[3].is(authority, true, false)
        &&& self.data@.len() == 10
        &&& self.data@[0] == 12
        &&& le_u64(self.data@.subrange(1, 9)) == amount
        &&& self.data@[9] == decimals
    }
}

/// Calls `Account::unpack` of spl-token and keeps the balance. Believed of
/// it: whether it accepts the bytes, and the balance it reads, depend on the
/// bytes alone; it accepts only records of 165 bytes, and the balance is the
/// little-endian number in bytes 64 to 71.
#[verifier::external_body]
fn unpack_account_amount(data: &[u8]) -> (r: Result<u64, ProgramError>)
    ensures
        match r {
            Ok(amount) => packed_account_amount(data@) == Some(amount) && data@.len() == 165
                && amount == le_u64(data@.subrange(64, 72)),
            Err(_) => packed_account_amount(data@) is None,
        },
{
    Account::unpack(data).map(|account| account.amount)
}

/// Calls `Mint::unpack` of spl-token and keeps the decimals. Believed of
/// it: whether it accepts the bytes, and the decimals it reads, depend on
/// the bytes alone; it accepts only records of 82 bytes, and the decimals
/// are byte 44.
#[verifier::external_body]
fn unpack_mint_decimals(data: &[u8]) -> (r: Result<u8, ProgramError>)
    ensures
        match r {
            Ok(decimals) => packed_mint_decimals(data@) == Some(decimals) && data@.len() == 82
                && decimals == data@[44],
            Err(_) => packed_mint_decimals(data@) is None,
        },
{
    Mint::unpack(data).map(|mint| mint.decimals)
}

/// Calls `spl_token::instruction::transfer_checked` with no multisig
/// signers. Believed of it: it refuses any program but the token ledger
/// service, and otherwise builds the call that `is_checked_transfer`
/// describes.
#[verifier::external_body]
fn transfer_checked(
    ledger: &Identity,
    source: &Identity,
    mint: &Identity,
    destination: &Identity,
    authority: &Identity,
    amount: u64,
    decimals: u8,
) -> (r: Result<LedgerCall, ProgramError>)
    ensures
        match r {
            Ok(call) => ledger@ == token_ledger_id() && call.is_checked_transfer(
                ledger@,
                source@,
                mint@,
                destination@,
                authority@,
                amount,
                decimals,
            ),
            Err(_) => ledger@ != token_ledger_id(),
        },
{
    let built = spl_token::instruction::transfer_checked(
        &Pubkey::new_from_array(ledger.bytes),
        &Pubkey::new_from_array(source.bytes),
        &Pubkey::new_from_array(mint.bytes),
        &Pubkey::new_from_array(destination.bytes),
        &Pubkey::new_from_array(authority.bytes),
        &[],
        amount,
        decimals,
    )?;
    let accounts = built.accounts.iter().map(
        |meta| AccountRole { key: Identity { bytes: meta.pubkey.to_bytes() }, is_signer: meta.is_signer, is_writable: meta.is_writable },
    ).collect();
    Ok(LedgerCall { program: Identity { bytes: built.program_id.to_bytes() }, accounts, data: built.data })
}

/// The balance of a token account, read from its record.
pub fn source_balance(data: &[u8]) -> (r: Result<u64, TransferError>)
    ensures
        match packed_account_amount(data@) {
            Some(amount) => r matches Ok(read) && read == amount,
            None => r matches Err(TransferError::MalformedAccountData),
        },
{
    match unpack_account_amount(data) {
        Ok(amount) => Ok(amount),
        Err(_) => Err(TransferError::MalformedAccountData),
    }
}

/// The decimal precision of a mint, read from its record.
pub fn mint_decimals(data: &[u8]) -> (r: Result<u8, TransferError>)
    ensures
        match packed_mint_decimals(data@) {
            Some(decimals) => r matches Ok(read) && read == decimals,
            None => r matches Err(TransferError::MalformedAccountData),
        },
{
    match unpack_mint_decimals(data) {
        Ok(decimals) => Ok(decimals),
        Err(_) => Err(TransferError::MalformedAccountData),
    }
}

/// Why the precondition of a transfer of `amount` fails on these two
/// records, if it does: the source record is read first, then the balance
/// is held against the amount, then the mint record is read.
pub open spec fn precondition_failure(source: Seq<u8>, mint: Seq<u8>, amount: u64) -> Option<
    TransferError,
> {
    match packed_account_amount(source) {
        None => Some(TransferError::MalformedAccountData),
        Some(balance) => if balance < amount {
            Some(TransferError::InsufficientFunds)
        } else if packed_mint_decimals(mint) is None {
            Some(TransferError::MalformedAccountData)
        } else {
            None
        },
    }
}

/// Checks that the source holds at least `amount`, and hands back the
/// mint's decimals.
pub fn check_precondition(source: &[u8], mint: &[u8], amount: u64) -> (r: Result<
    u8,
    TransferError,
>)
    ensures
        match precondition_failure(source@, mint@, amount) {
            Some(failure) => r == Err::<u8, TransferError>(failure),
            None => r matches Ok(decimals) && packed_mint_decimals(mint@) == Some(decimals),
        },
{
    let balance: u64 = match source_balance(source) {
        Ok(balance) => balance,
        Err(e) => { return Err(e); },
    };
    if balance < amount {
        return Err(TransferError::InsufficientFunds);
    }
    mint_decimals(mint)
}

/// Builds the checked transfer of `amount` from `source` to `destination`,
/// signed by `authority` alone. The ledger service builds calls only to
/// itself: for any other `ledger` the result is its refusal.
pub fn build_transfer(
    ledger: &Identity,
    source: &Identity,
    mint: &Identity,
    destination: &Identity,
    authority: &Identity,
    amount: u64,
    decimals: u8,
) -> (r: Result<LedgerCall, TransferError>)
    ensures
        ledger@ == token_ledger_id() ==> (r matches Ok(call) && call.is_checked_transfer(
            ledger@,
            source@,
            mint@,
            destination@,
            authority@,
            amount,
            decimals,
        )),
        ledger@ != token_ledger_id() ==> (r matches Err(TransferError::LedgerServiceError(_))),
{
    match transfer_checked(ledger, source, mint, destination, authority, amount, decimals) {
        Ok(call) => Ok(call),
        Err(e) => Err(TransferError::LedgerServiceError(e)),
    }
}

/// The result of the request once the ledger service has answered the
/// call: its report is handed on unchanged.
pub fn complete(answer: Result<(), ProgramError>) -> (r: Result<(), TransferError>)
    ensures
        match answer {
            Ok(_) => r is Ok,
            Err(report) => r == Err::<(), TransferError>(TransferError::LedgerServiceError(report)),
        },
{
    match answer {
        Ok(_) => Ok(()),
        Err(report) => Err(TransferError::LedgerServiceError(report)),
    }
}

} // verus!

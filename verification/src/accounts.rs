use crate::error::TransferError;
use crate::identity::Identity;
use vstd::prelude::*;

verus! {

/// What the caller supplies of one account: its identity and the bytes of
/// its record as they are when the request arrives.
#[derive(Clone, Debug)]
pub struct AccountRecord {
    pub key: Identity,
    pub data: Vec<u8>,
}

/// The five accounts of a request, by role.
#[derive(Clone, Copy, Debug)]
pub struct AccountRoles<'a> {
    pub source: &'a AccountRecord,
    pub mint: &'a AccountRecord,
    pub destination: &'a AccountRecord,
    pub authority: &'a AccountRecord,
    pub ledger_service: &'a AccountRecord,
}

/// Takes the account under the cursor and moves the cursor past it. At the
/// end of the list nothing is taken and the cursor stays.
pub fn next_account<'a>(accounts: &'a [AccountRecord], cursor: &mut usize) -> (r: Result<
    &'a AccountRecord,
    TransferError,
>)
    ensures
        *old(cursor) < accounts@.len() ==> (r matches Ok(account) && *account == accounts@[*old(
            cursor,
        ) as int] && *final(cursor) == *old(cursor) + 1),
        *old(cursor) >= accounts@.len() ==> (r matches Err(TransferError::MissingAccount)
            && *final(cursor) == *old(cursor)),
{
    if *cursor < accounts.len() {
        let account = &accounts[*cursor];
        *cursor = *cursor + 1;
        Ok(account)
    } else {
        Err(TransferError::MissingAccount)
    }
}

impl<'a> AccountRoles<'a> {
    /// The roles that the first five accounts of `accounts` play.
    pub open spec fn assigned_from(&self, accounts: Seq<AccountRecord>) -> bool {
        &&& accounts.len() >= 5
        &&& *self.source == accounts[0]
        &&& *self.mint == accounts[1]
        &&& *self.destination == accounts[2]
        &&& *self.authority == accounts[3]
        &&& *self.ledger_service == accounts[4]
    }

    /// Assigns the accounts to their roles by position: source, mint,
    /// destination, authority, ledger service. Accounts after the fifth are
    /// not looked at.
    pub fn resolve(accounts: &'a [AccountRecord]) -> (r: Result<AccountRoles<'a>, TransferError>)
        ensures
            accounts@.len() >= 5 ==> (r matches Ok(roles) && roles.assigned_from(accounts@)),
            accounts@.len() < 5 ==> (r matches Err(TransferError::MissingAccount)),
    {
        let mut cursor: usize = 0;
        let source = match next_account(accounts, &mut cursor) {
            Ok(account) => account,
            Err(e) => { return Err(e); },
        };
        let mint = match next_account(accounts, &mut cursor) {
            Ok(account) => account,
            Err(e) => { return Err(e); },
        };
        let destination = match next_account(accounts, &mut cursor) {
            Ok(account) => account,
            Err(e) => { return Err(e); },
        };
        let authority = match next_account(accounts, &mut cursor) {
            Ok(account) => account,
            Err(e) => { return Err(e); },
        };
        let ledger_service = match next_account(accounts, &mut cursor) {
            Ok(account) => account,
            Err(e) => { return Err(e); },
        };
        Ok(AccountRoles { source, mint, destination, authority, ledger_service })
    }
}

} // verus!

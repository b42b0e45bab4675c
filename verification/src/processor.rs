use crate::accounts::{AccountRecord, AccountRoles};
use crate::authority::{derived_authority, is_authority_of, verify_authority, DerivedAuthority};
use crate::error::{ErrorKind, TransferError};
use crate::identity::Identity;
use crate::instruction::{le_u64, InstructionArgs};
use crate::ledger::{
    build_transfer, check_precondition, packed_account_amount, packed_mint_decimals,
    token_ledger_id, LedgerCall,
};
use vstd::prelude::*;

verus! {

/// A transfer that has passed every check: the call to send to the ledger
/// service, and the derived authority whose seeds sign it.
#[derive(Clone, Debug, PartialEq, Eq)]
pub struct SignedTransfer {
    pub call: LedgerCall,
    pub authority: DerivedAuthority,
    pub amount: u64,
    pub decimals: u8,
}

/// Why a request is refused, if it is. The checks run in a fixed order and
/// the first that fails decides: the instruction bytes, the number of
/// accounts, the authority, the source record, the balance, the mint
/// record, and last the program that the call is addressed to.
pub open spec fn refusal(program: Seq<u8>, accounts: Seq<AccountRecord>, data: Seq<u8>) -> Option<
    ErrorKind,
> {
    if data.len() != 8 {
        Some(ErrorKind::MalformedInput)
    } else if accounts.len() < 5 {
        Some(ErrorKind::MissingAccount)
    } else if !is_authority_of(accounts[3].key@, program) {
        Some(ErrorKind::Unauthorized)
    } else if packed_account_amount(accounts[0].data@) is None {
        Some(ErrorKind::MalformedAccountData)
    } else if packed_account_amount(accounts[0].data@)->0 < le_u64(data) {
        Some(ErrorKind::InsufficientFunds)
    } else if packed_mint_decimals(accounts[1].data@) is None {
        Some(ErrorKind::MalformedAccountData)
    } else if accounts[4].key@ != token_ledger_id() {
        Some(ErrorKind::LedgerServiceError)
    } else {
        None
    }
}

impl SignedTransfer {
    /// Whether this is the transfer that the request asks for: the amount
    /// is the one in the instruction bytes, the decimals are the mint's, the
    /// authority is the one derived from the program and is the account in
    /// the authority role, and the call is the checked transfer of that
    /// amount from the source to the destination, addressed to the account
    /// in the ledger-service role.
    pub open spec fn answers(
        &self,
        program: Seq<u8>,
        accounts: Seq<AccountRecord>,
        data: Seq<u8>,
    ) -> bool {
        &&& data.len() == 8
        &&& accounts.len() >= 5
        &&& self.amount == le_u64(data)
        &&& packed_mint_decimals(accounts[1].data@) == Some(self.decimals)
        &&& derived_authority(program) == Some(self.authority@)
        &&& self.authority.identity@ == accounts[3].key@
        &&& self.call.is_checked_transfer(
            accounts[4].key@,
            accounts[0].key@,
            accounts[1].key@,
            accounts[2].key@,
            accounts[3].key@,
            self.amount,
            self.decimals,
        )
    }
}

/// Handles one request: decodes the amount, assigns the accounts to their
/// roles, admits only the derived authority, checks the balance, and builds
/// the signed transfer. It changes nothing: a refusal carries no call, and
/// the only call it ever hands out is the one that the request asks for.
pub fn process_instruction(
    program_id: &Identity,
    accounts: &[AccountRecord],
    instruction_data: &[u8],
) -> (r: Result<SignedTransfer, TransferError>)
    ensures
        match refusal(program_id@, accounts@, instruction_data@) {
            Some(kind) => r matches Err(e) && e.kind() == kind,
            None => r matches Ok(transfer) && transfer.answers(
                program_id@,
                accounts@,
                instruction_data@,
            ),
        },
{
    let args = match InstructionArgs::try_from_slice(instruction_data) {
        Ok(args) => args,
        Err(e) => { return Err(e); },
    };
    let roles = match AccountRoles::resolve(accounts) {
        Ok(roles) => roles,
        Err(e) => { return Err(e); },
    };
    let authority = match verify_authority(program_id, &roles.authority.key) {
        Ok(authority) => authority,
        Err(e) => { return Err(e); },
    };
    let decimals: u8 = match check_precondition(
        roles.source.data.as_slice(),
        roles.mint.data.as_slice(),
        args.amount,
    ) {
        Ok(decimals) => decimals,
        Err(e) => { return Err(e); },
    };
    let call = match build_transfer(
        &roles.ledger_service.key,
        &roles.source.key,
        &roles.mint.key,
        &roles.destination.key,
        &roles.authority.key,
        args.amount,
        decimals,
    ) {
        Ok(call) => call,
        Err(e) => { return Err(e); },
    };
    Ok(SignedTransfer { call, authority, amount: args.amount, decimals })
}

/// A request whose instruction bytes are not exactly eight is refused as
/// malformed, whatever the accounts are.
pub proof fn lemma_wrong_length_is_malformed(
    program: Seq<u8>,
    accounts: Seq<AccountRecord>,
    data: Seq<u8>,
)
    requires
        data.len() != 8,
    ensures
        refusal(program, accounts, data) == Some(ErrorKind::MalformedInput),
{
}

/// A well-formed request that supplies, in the authority role, any account
/// but the one derived from the program is refused as unauthorized.
pub proof fn lemma_foreign_authority_is_refused(
    program: Seq<u8>,
    accounts: Seq<AccountRecord>,
    data: Seq<u8>,
)
    requires
        data.len() == 8,
        accounts.len() >= 5,
        !is_authority_of(accounts[3].key@, program),
    ensures
        refusal(program, accounts, data) == Some(ErrorKind::Unauthorized),
{
}

/// A request by the derived authority for more than the source holds is
/// refused for insufficient funds.
pub proof fn lemma_overdraft_is_refused(
    program: Seq<u8>,
    accounts: Seq<AccountRecord>,
    data: Seq<u8>,
    balance: u64,
)
    requires
        data.len() == 8,
        accounts.len() >= 5,
        is_authority_of(accounts[3].key@, program),
        packed_account_amount(accounts[0].data@) == Some(balance),
        le_u64(data) > balance,
    ensures
        refusal(program, accounts, data) == Some(ErrorKind::InsufficientFunds),
{
}

/// A request by the derived authority for no more than the source holds,
/// on well-formed records and addressed to the ledger service, is granted.
pub proof fn lemma_covered_request_is_granted(
    program: Seq<u8>,
    accounts: Seq<AccountRecord>,
    data: Seq<u8>,
    balance: u64,
)
    requires
        data.len() == 8,
        accounts.len() >= 5,
        is_authority_of(accounts[3].key@, program),
        packed_account_amount(accounts[0].data@) == Some(balance),
        le_u64(data) <= balance,
        packed_mint_decimals(accounts[1].data@) is Some,
        accounts[4].key@ == token_ledger_id(),
    ensures
        refusal(program, accounts, data) is None,
{
}

/// Whatever is granted moves exactly the requested amount: the call carries
/// the amount of the instruction bytes, from the first account to the
/// third, and the derived authority is its one signer.
pub proof fn lemma_granted_transfer_carries_request(
    transfer: SignedTransfer,
    program: Seq<u8>,
    accounts: Seq<AccountRecord>,
    data: Seq<u8>,
)
    requires
        transfer.answers(program, accounts, data),
    ensures
        le_u64(transfer.call.data@.subrange(1, 9)) == le_u64(data),
        transfer.call.accounts@[0].key@ == accounts[0].key@,
        transfer.call.accounts@[2].key@ == accounts[2].key@,
        transfer.call.accounts@[3].key@ == transfer.authority.identity@,
        transfer.call.accounts@[3].is_signer,
        !transfer.call.accounts@[0].is_signer,
        !transfer.call.accounts@[1].is_signer,
        !transfer.call.accounts@[2].is_signer,
{
}

} // verus!

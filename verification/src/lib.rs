//! Authorization of a single delegated token transfer.
//!
//! A program acts as the authority over a token account without holding a
//! private key: its signing identity is derived from its own identity and a
//! fixed label. This library decodes the request, assigns the supplied
//! accounts to their roles, checks that the supplied authority is the derived
//! one, checks the balance, and builds the transfer call together with the
//! seeds that authorize it.

pub mod identity;
pub mod error;
pub mod instruction;
pub mod accounts;
pub mod authority;
pub mod ledger;
pub mod processor;

pub use crate::accounts::{AccountRecord, AccountRoles};
pub use crate::authority::DerivedAuthority;
pub use crate::error::{ErrorKind, TransferError};
pub use crate::identity::Identity;
pub use crate::instruction::InstructionArgs;
pub use crate::ledger::{AccountRole, LedgerCall};
pub use crate::processor::{process_instruction, SignedTransfer};

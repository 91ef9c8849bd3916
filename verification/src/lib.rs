//! An M-of-N multisignature authorization engine.
//!
//! A [`Multisig`] registry holds an ordered owner set and an approval
//! threshold. A [`Transaction`] proposal collects one approval per owner
//! position and, once the threshold is met, authorizes exactly one execution
//! of the action it carries, performed under the registry's derived
//! [`ExecutionAuthority`] rather than under any single owner.

pub mod authority;
pub mod error;
pub mod identity;
pub mod registry;
pub mod transaction;

pub use authority::{confirm_caller, derive_authority, AuthorityProof, ExecutionAuthority};
pub use error::ErrorCode;
pub use identity::Identity;
pub use registry::{close_account, create_multisig, set_owners, set_owners_as, Multisig};
pub use transaction::{
    approve, create_transaction, execute_transaction, record_outcome, AccountMeta, Instruction,
    Invocation, Transaction, TransactionAccount,
};

use vstd::prelude::*;

use crate::account::Account;
use crate::pubkey::Pubkey;

verus! {

/// Failures of the account and signature-status capabilities. Transport
/// failures are mapped to `RpcClientError` at the boundary that performs the
/// I/O; the message is all that is kept of the underlying error.
#[derive(Clone, Debug, PartialEq, Eq)]
pub enum CoreError {
    RpcClientError(String),
    FailedToGetAccountFromCluster,
    FailedToParseDelegationRecord(String),
}

/// Failures of the chain-snapshot resolver.
#[derive(Clone, Debug, PartialEq, Eq)]
pub enum LockboxError {
    /// The account provider failed.
    CoreError(CoreError),
    /// A multi-account fetch returned a list of the wrong arity.
    InvalidFetch { fetched_pubkeys: Vec<Pubkey>, fetched_accounts: Vec<Option<Account>> },
}

/// Failures of transaction-account snapshotting, classification and
/// validation.
#[derive(Clone, Debug, PartialEq, Eq)]
pub enum TranswiseError {
    /// The chain-snapshot resolver failed.
    LockboxError(LockboxError),
    /// The ephemeral policy rejects the transaction: these writables are
    /// undelegated data accounts.
    TransactionIncludeDataAccountsAsWritable { writable_data_pubkeys: Vec<Pubkey> },
    /// The transaction has no account keys, so no payer.
    TransactionIsMissingPayerAccount,
}

pub type CoreResult<T> = Result<T, CoreError>;

pub type LockboxResult<T> = Result<T, LockboxError>;

pub type TranswiseResult<T> = Result<T, TranswiseError>;

} // verus!

use vstd::prelude::*;

use crate::account::{Account, AccountModel};
use crate::delegation_inconsistency::{DelegationInconsistency, DelegationInconsistencyModel};
use crate::delegation_record::DelegationRecord;
use crate::delegation_record_parser::DelegationRecordModel;

verus! {

/// What on-chain state an account is in, as the resolver classifies it.
/// Every fetched account maps to exactly one variant.
#[derive(Clone, Debug, PartialEq, Eq)]
pub enum AccountChainState {
    /// The pubkey is on the ed25519 curve: a plain wallet. If the account is
    /// absent, the balance is zero and the owner is the system program.
    Wallet { lamports: u64, owner: crate::pubkey::Pubkey },
    /// The account is not properly delegated and must not be written on the
    /// ephemeral validator; carries why the delegation is not valid.
    Undelegated { account: Account, delegation_inconsistency: DelegationInconsistency },
    /// The account is owned by the delegation program, its delegation-record
    /// PDA exists, is owned by the delegation program, and its data parsed.
    Delegated { account: Account, delegation_record: DelegationRecord },
}

/// The mathematical content of an `AccountChainState`.
pub enum AccountChainStateModel {
    Wallet { lamports: int, owner: Seq<u8> },
    Undelegated { account: AccountModel, delegation_inconsistency: DelegationInconsistencyModel },
    Delegated { account: AccountModel, delegation_record: DelegationRecordModel },
}

impl View for AccountChainState {
    type V = AccountChainStateModel;

    open spec fn view(&self) -> AccountChainStateModel {
        match self {
            AccountChainState::Wallet { lamports, owner } => AccountChainStateModel::Wallet {
                lamports: *lamports as int,
                owner: owner@,
            },
            AccountChainState::Undelegated {
                account,
                delegation_inconsistency,
            } => AccountChainStateModel::Undelegated {
                account: account@,
                delegation_inconsistency: delegation_inconsistency@,
            },
            AccountChainState::Delegated {
                account,
                delegation_record,
            } => AccountChainStateModel::Delegated {
                account: account@,
                delegation_record: delegation_record@,
            },
        }
    }
}

impl AccountChainState {
    /// Whether this is the `Wallet` variant.
    pub fn is_wallet(&self) -> (r: bool)
        ensures
            r == (self@ is Wallet),
    {
        match self {
            AccountChainState::Wallet { .. } => true,
            _ => false,
        }
    }

    /// Whether this is the `Undelegated` variant.
    pub fn is_undelegated(&self) -> (r: bool)
        ensures
            r == (self@ is Undelegated),
    {
        match self {
            AccountChainState::Undelegated { .. } => true,
            _ => false,
        }
    }

    /// Whether this is the `Delegated` variant.
    pub fn is_delegated(&self) -> (r: bool)
        ensures
            r == (self@ is Delegated),
    {
        match self {
            AccountChainState::Delegated { .. } => true,
            _ => false,
        }
    }
}

} // verus!

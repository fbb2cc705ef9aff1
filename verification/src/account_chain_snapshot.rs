use vstd::prelude::*;

use crate::account::{default_account_model, opt_account_model, Account, AccountModel};
use crate::account_chain_state::{AccountChainState, AccountChainStateModel};
use crate::delegation_inconsistency::{DelegationInconsistency, DelegationInconsistencyModel};
use crate::delegation_record_parser::{DelegationRecordModel, DelegationRecordParser};
use crate::errors::{CoreError, LockboxError, LockboxResult};
use crate::pda::{delegation_pda_from_pubkey, delegation_pda_of, delegation_program_id, delegation_program_id_bytes};
use crate::provider::AccountProvider;
use crate::pubkey::{on_curve, system_program_id, system_program_id_bytes, Pubkey};

verus! {

/// An immutable observation of one account's chain state at one slot.
#[derive(Clone, Debug, PartialEq, Eq)]
pub struct AccountChainSnapshot {
    pub pubkey: Pubkey,
    pub at_slot: u64,
    pub chain_state: AccountChainState,
}

/// The mathematical content of an `AccountChainSnapshot`.
pub struct AccountChainSnapshotModel {
    pub pubkey: Seq<u8>,
    pub at_slot: u64,
    pub chain_state: AccountChainStateModel,
}

impl View for AccountChainSnapshot {
    type V = AccountChainSnapshotModel;

    open spec fn view(&self) -> AccountChainSnapshotModel {
        AccountChainSnapshotModel {
            pubkey: self.pubkey@,
            at_slot: self.at_slot,
            chain_state: self.chain_state@,
        }
    }
}

/// The chain state of an on-curve pubkey with the given fetched account: a
/// wallet, with zero balance and the system program as owner when the
/// account is absent.
pub open spec fn wallet_state_of(fetched: Option<AccountModel>) -> AccountChainStateModel {
    match fetched {
        Some(a) => AccountChainStateModel::Wallet { lamports: a.lamports, owner: a.owner },
        None => AccountChainStateModel::Wallet { lamports: 0, owner: system_program_id_bytes() },
    }
}

/// The data bytes of an optionally fetched account; empty when absent. Used
/// to say what the parser was given.
pub open spec fn record_data_of(fetched: Option<AccountModel>) -> Seq<u8> {
    match fetched {
        Some(a) => a.data,
        None => Seq::<u8>::empty(),
    }
}

/// The decision table for an off-curve pubkey, applied in order, first match
/// wins: absent base account; base account not owned by the delegation
/// program; delegation record absent; record not owned by the delegation
/// program; record data that does not parse; and finally a valid delegation.
pub open spec fn pda_chain_state_of(
    base: Option<AccountModel>,
    record: Option<AccountModel>,
    parse: Result<DelegationRecordModel, Seq<char>>,
) -> AccountChainStateModel {
    match base {
        None => AccountChainStateModel::Undelegated {
            account: default_account_model(),
            delegation_inconsistency: DelegationInconsistencyModel::AccountNotFound,
        },
        Some(acc) => if acc.owner != delegation_program_id_bytes() {
            AccountChainStateModel::Undelegated {
                account: acc,
                delegation_inconsistency: DelegationInconsistencyModel::AccountInvalidOwner,
            }
        } else {
            match record {
                None => AccountChainStateModel::Undelegated {
                    account: acc,
                    delegation_inconsistency: DelegationInconsistencyModel::DelegationRecordNotFound,
                },
                Some(rec) => if rec.owner != delegation_program_id_bytes() {
                    AccountChainStateModel::Undelegated {
                        account: acc,
                        delegation_inconsistency: DelegationInconsistencyModel::DelegationRecordInvalidOwner,
                    }
                } else {
                    match parse {
                        Ok(m) => AccountChainStateModel::Delegated {
                            account: acc,
                            delegation_record: m,
                        },
                        Err(msg) => AccountChainStateModel::Undelegated {
                            account: acc,
                            delegation_inconsistency: DelegationInconsistencyModel::DelegationRecordDataInvalid(
                                msg,
                            ),
                        },
                    }
                },
            }
        },
    }
}

/// What the resolver promises of the chain state of an off-curve pubkey:
/// its delegation-record PDA is derivable, and the state is the decision
/// table applied to the provider's contents for the pubkey and that PDA.
pub open spec fn pda_snapshot_state_ok<T: AccountProvider, U: DelegationRecordParser>(
    provider: T,
    parser: U,
    pubkey: Seq<u8>,
    state: AccountChainStateModel,
) -> bool {
    &&& delegation_pda_of(pubkey) matches Some(pda)
    &&& state == pda_chain_state_of(
        provider.account_spec(pubkey),
        provider.account_spec(pda.0),
        parser.parse_spec(record_data_of(provider.account_spec(pda.0))),
    )
}

/// Whether a pubkey can be resolved at all: an on-curve pubkey always can;
/// an off-curve pubkey can when its delegation-record PDA is derivable,
/// which fails only in the statistically improbable case that no bump seed
/// yields a valid address.
pub open spec fn resolvable(pubkey: Seq<u8>) -> bool {
    on_curve(pubkey) || delegation_pda_of(pubkey) is Some
}

/// What the resolver promises of a snapshot it returns for `pubkey`: the
/// pubkey is copied verbatim, the slot is the provider's observation slot,
/// an on-curve pubkey is classified as a wallet from the fetched account,
/// and an off-curve pubkey by the decision table over its base account and
/// its delegation-record PDA.
pub open spec fn resolved_snapshot_ok<T: AccountProvider, U: DelegationRecordParser>(
    provider: T,
    parser: U,
    pubkey: Seq<u8>,
    snap: AccountChainSnapshotModel,
) -> bool {
    &&& snap.pubkey == pubkey
    &&& snap.at_slot == provider.at_slot_spec()
    &&& on_curve(pubkey) ==> snap.chain_state == wallet_state_of(provider.account_spec(pubkey))
    &&& !on_curve(pubkey) ==> pda_snapshot_state_ok(provider, parser, pubkey, snap.chain_state)
}

/// The one snapshot model a resolvable pubkey resolves to, given the
/// provider's contents and the parser.
pub open spec fn resolved_model<T: AccountProvider, U: DelegationRecordParser>(
    provider: T,
    parser: U,
    pubkey: Seq<u8>,
) -> AccountChainSnapshotModel {
    AccountChainSnapshotModel {
        pubkey,
        at_slot: provider.at_slot_spec(),
        chain_state: if on_curve(pubkey) {
            wallet_state_of(provider.account_spec(pubkey))
        } else {
            match delegation_pda_of(pubkey) {
                Some(pda) => pda_chain_state_of(
                    provider.account_spec(pubkey),
                    provider.account_spec(pda.0),
                    parser.parse_spec(record_data_of(provider.account_spec(pda.0))),
                ),
                None => vstd::pervasive::arbitrary(),
            }
        },
    }
}

/// A snapshot that satisfies the resolver's promise for a resolvable
/// pubkey is exactly the resolved model.
pub proof fn lemma_resolved_model<T: AccountProvider, U: DelegationRecordParser>(
    provider: T,
    parser: U,
    pubkey: Seq<u8>,
    snap: AccountChainSnapshotModel,
)
    requires
        resolved_snapshot_ok(provider, parser, pubkey, snap),
        resolvable(pubkey),
    ensures
        snap == resolved_model(provider, parser, pubkey),
{
}

/// Classifies the two accounts fetched for an off-curve pubkey — the base
/// account and its delegation-record PDA — into a chain state, exactly per
/// the decision table. Malformed delegations are folded into `Undelegated`,
/// never surfaced as errors.
pub fn chain_state_of_pda_fetched_accounts<U: DelegationRecordParser>(
    parser: &U,
    account: Option<Account>,
    delegation_record_account: Option<Account>,
) -> (r: AccountChainState)
    ensures
        r@ == pda_chain_state_of(
            opt_account_model(account),
            opt_account_model(delegation_record_account),
            parser.parse_spec(record_data_of(opt_account_model(delegation_record_account))),
        ),
{
    let account = match account {
        None => {
            return AccountChainState::Undelegated {
                account: Account::default(),
                delegation_inconsistency: DelegationInconsistency::AccountNotFound,
            };
        },
        Some(acc) => acc,
    };
    let program_id = delegation_program_id();
    if !account.owner.equals(&program_id) {
        return AccountChainState::Undelegated {
            account,
            delegation_inconsistency: DelegationInconsistency::AccountInvalidOwner,
        };
    }
    let delegation_record_account = match delegation_record_account {
        None => {
            return AccountChainState::Undelegated {
                account,
                delegation_inconsistency: DelegationInconsistency::DelegationRecordNotFound,
            };
        },
        Some(acc) => acc,
    };
    if !delegation_record_account.owner.equals(&program_id) {
        return AccountChainState::Undelegated {
            account,
            delegation_inconsistency: DelegationInconsistency::DelegationRecordInvalidOwner,
        };
    }
    match parser.try_parse(delegation_record_account.data.as_slice()) {
        Ok(delegation_record) => AccountChainState::Delegated { account, delegation_record },
        Err(msg) => AccountChainState::Undelegated {
            account,
            delegation_inconsistency: DelegationInconsistency::DelegationRecordDataInvalid(msg),
        },
    }
}

/// Resolves pubkeys into chain snapshots: fetches the relevant accounts
/// through the provider and classifies them. It never retries on its own.
pub struct AccountChainSnapshotProvider<T: AccountProvider, U: DelegationRecordParser> {
    pub account_provider: T,
    pub delegation_record_parser: U,
}

impl<T: AccountProvider, U: DelegationRecordParser> AccountChainSnapshotProvider<T, U> {
    /// Builds a resolver from its two capabilities.
    pub fn new(account_provider: T, delegation_record_parser: U) -> (r: Self)
        ensures
            r.account_provider == account_provider,
            r.delegation_record_parser == delegation_record_parser,
    {
        AccountChainSnapshotProvider { account_provider, delegation_record_parser }
    }

    /// Fetches and classifies the chain state of one pubkey. An on-curve
    /// pubkey is always a wallet; an off-curve pubkey is classified from the
    /// base account and its delegation-record PDA, fetched in one batch.
    /// The snapshot's slot is the fetch's observation slot, never older than
    /// what the provider had already observed.
    pub fn try_fetch_chain_snapshot_of_pubkey(&self, pubkey: &Pubkey) -> (r: LockboxResult<
        AccountChainSnapshot,
    >)
        ensures
            r matches Ok(snap) ==> {
                &&& resolved_snapshot_ok(
                    self.account_provider,
                    self.delegation_record_parser,
                    pubkey@,
                    snap@,
                )
                &&& snap.at_slot >= self.account_provider.last_observed_slot()
                &&& on_curve(pubkey@) ==> snap.chain_state@ is Wallet
            },
            r matches Err(e) ==> (e is CoreError || delegation_pda_of(pubkey@) is None),
            !self.account_provider.may_fail() && resolvable(pubkey@) ==> r is Ok,
    {
        if pubkey.is_on_curve() {
            self.try_fetch_chain_snapshot_of_wallet(pubkey)
        } else {
            self.try_fetch_chain_snapshot_of_pda(pubkey)
        }
    }

    /// Snapshots an on-curve pubkey: one single-account fetch, classified as
    /// a wallet.
    fn try_fetch_chain_snapshot_of_wallet(&self, pubkey: &Pubkey) -> (r: LockboxResult<
        AccountChainSnapshot,
    >)
        ensures
            r matches Ok(snap) ==> {
                &&& snap.pubkey@ == pubkey@
                &&& snap.at_slot == self.account_provider.at_slot_spec()
                &&& snap.at_slot >= self.account_provider.last_observed_slot()
                &&& snap.chain_state@ == wallet_state_of(
                    self.account_provider.account_spec(pubkey@),
                )
            },
            r matches Err(e) ==> e is CoreError,
            !self.account_provider.may_fail() ==> r is Ok,
    {
        let (at_slot, account) = match self.account_provider.get_account(pubkey, None) {
            Ok(x) => x,
            Err(e) => {
                return Err(LockboxError::CoreError(e));
            },
        };
        let chain_state = match account {
            Some(acc) => AccountChainState::Wallet { lamports: acc.lamports, owner: acc.owner },
            None => AccountChainState::Wallet { lamports: 0, owner: system_program_id() },
        };
        Ok(AccountChainSnapshot { pubkey: *pubkey, at_slot, chain_state })
    }

    /// Snapshots an off-curve pubkey: derives its delegation-record PDA,
    /// fetches both accounts in one batch, and applies the decision table.
    fn try_fetch_chain_snapshot_of_pda(&self, pubkey: &Pubkey) -> (r: LockboxResult<
        AccountChainSnapshot,
    >)
        ensures
            r matches Ok(snap) ==> {
                &&& snap.pubkey@ == pubkey@
                &&& snap.at_slot == self.account_provider.at_slot_spec()
                &&& snap.at_slot >= self.account_provider.last_observed_slot()
                &&& pda_snapshot_state_ok(
                    self.account_provider,
                    self.delegation_record_parser,
                    pubkey@,
                    snap.chain_state@,
                )
            },
            r matches Err(e) ==> (e is CoreError || delegation_pda_of(pubkey@) is None),
            !self.account_provider.may_fail() && delegation_pda_of(pubkey@) is Some ==> r is Ok,
    {
        let delegation_pda = match delegation_pda_from_pubkey(pubkey) {
            Some(pda) => pda,
            None => {
                return Err(LockboxError::CoreError(CoreError::FailedToGetAccountFromCluster));
            },
        };
        let mut keys: Vec<Pubkey> = Vec::new();
        keys.push(*pubkey);
        keys.push(delegation_pda);
        let (at_slot, mut fetched_accounts) = match self.account_provider.get_multiple_accounts(
            &keys,
            None,
        ) {
            Ok(x) => x,
            Err(e) => {
                return Err(LockboxError::CoreError(e));
            },
        };
        // The provider guarantees the arity, so this guard can never fire;
        // it is kept because the interface documents it.
        if fetched_accounts.len() != 2 {
            return Err(
                LockboxError::InvalidFetch {
                    fetched_pubkeys: keys,
                    fetched_accounts,
                },
            );
        }
        let account = fetched_accounts.remove(0);
        let delegation_record_account = fetched_accounts.remove(0);
        let chain_state = chain_state_of_pda_fetched_accounts(
            &self.delegation_record_parser,
            account,
            delegation_record_account,
        );
        Ok(AccountChainSnapshot { pubkey: *pubkey, at_slot, chain_state })
    }
}

} // verus!

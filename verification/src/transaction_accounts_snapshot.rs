use vstd::prelude::*;

use crate::account_chain_snapshot::{
    resolved_snapshot_ok, AccountChainSnapshot, AccountChainSnapshotModel,
    AccountChainSnapshotProvider,
};
use crate::delegation_record_parser::DelegationRecordParser;
use crate::errors::{TranswiseError, TranswiseResult};
use crate::provider::AccountProvider;
use crate::pubkey::Pubkey;
use crate::transaction_accounts_holder::TransactionAccountsHolder;

verus! {

/// The models of a list of snapshots, in order.
pub open spec fn snapshot_models(s: Seq<AccountChainSnapshot>) -> Seq<AccountChainSnapshotModel> {
    Seq::new(s.len(), |i: int| s[i]@)
}

/// The byte views of a list of pubkeys, in order.
pub open spec fn pubkey_views(s: Seq<Pubkey>) -> Seq<Seq<u8>> {
    Seq::new(s.len(), |i: int| s[i]@)
}

/// The pubkeys of the snapshots whose state is `Delegated`, in order.
pub open spec fn delegated_pubkeys_of(s: Seq<AccountChainSnapshotModel>) -> Seq<Seq<u8>>
    decreases s.len(),
{
    if s.len() == 0 {
        Seq::empty()
    } else {
        let rest = delegated_pubkeys_of(s.drop_last());
        if s.last().chain_state is Delegated {
            rest.push(s.last().pubkey)
        } else {
            rest
        }
    }
}

/// The pubkeys of the snapshots whose state is `Undelegated` and whose
/// pubkey is not the payer, in order.
pub open spec fn undelegated_non_payer_pubkeys_of(
    s: Seq<AccountChainSnapshotModel>,
    payer: Seq<u8>,
) -> Seq<Seq<u8>>
    decreases s.len(),
{
    if s.len() == 0 {
        Seq::empty()
    } else {
        let rest = undelegated_non_payer_pubkeys_of(s.drop_last(), payer);
        if s.last().chain_state is Undelegated && s.last().pubkey != payer {
            rest.push(s.last().pubkey)
        } else {
            rest
        }
    }
}

/// The pubkeys of the snapshots whose state is `Undelegated` — data
/// accounts — payer included, in order.
pub open spec fn data_pubkeys_of(s: Seq<AccountChainSnapshotModel>) -> Seq<Seq<u8>>
    decreases s.len(),
{
    if s.len() == 0 {
        Seq::empty()
    } else {
        let rest = data_pubkeys_of(s.drop_last());
        if s.last().chain_state is Undelegated {
            rest.push(s.last().pubkey)
        } else {
            rest
        }
    }
}

/// The pubkeys of the snapshots whose state is `Wallet`, in order.
pub open spec fn wallet_pubkeys_of(s: Seq<AccountChainSnapshotModel>) -> Seq<Seq<u8>>
    decreases s.len(),
{
    if s.len() == 0 {
        Seq::empty()
    } else {
        let rest = wallet_pubkeys_of(s.drop_last());
        if s.last().chain_state is Wallet {
            rest.push(s.last().pubkey)
        } else {
            rest
        }
    }
}

/// A snapshot of all accounts of one transaction: each readonly and
/// writable pubkey resolved to its chain state, the lists in the same order
/// as in the originating holder, and the payer copied verbatim.
#[derive(Clone, Debug, PartialEq, Eq)]
pub struct TransactionAccountsSnapshot {
    pub readonly: Vec<AccountChainSnapshot>,
    pub writable: Vec<AccountChainSnapshot>,
    pub payer: Pubkey,
}

/// The mathematical content of a `TransactionAccountsSnapshot`.
#[verifier::ext_equal]
pub struct TransactionAccountsSnapshotModel {
    pub readonly: Seq<AccountChainSnapshotModel>,
    pub writable: Seq<AccountChainSnapshotModel>,
    pub payer: Seq<u8>,
}

impl View for TransactionAccountsSnapshot {
    type V = TransactionAccountsSnapshotModel;

    open spec fn view(&self) -> TransactionAccountsSnapshotModel {
        TransactionAccountsSnapshotModel {
            readonly: snapshot_models(self.readonly@),
            writable: snapshot_models(self.writable@),
            payer: self.payer@,
        }
    }
}

impl TransactionAccountsSnapshot {
    /// The models of the writable snapshots, in order.
    pub open spec fn writable_models(&self) -> Seq<AccountChainSnapshotModel> {
        snapshot_models(self.writable@)
    }

    /// The models of the readonly snapshots, in order.
    pub open spec fn readonly_models(&self) -> Seq<AccountChainSnapshotModel> {
        snapshot_models(self.readonly@)
    }

    /// Resolves every readonly and writable pubkey of the holder to a chain
    /// snapshot. Any individual failure fails the whole operation. The two
    /// result lists preserve the holder's order; the payer is copied.
    pub fn from_accounts_holder<T: AccountProvider, U: DelegationRecordParser>(
        holder: &TransactionAccountsHolder,
        account_chain_snapshot_provider: &AccountChainSnapshotProvider<T, U>,
    ) -> (r: TranswiseResult<TransactionAccountsSnapshot>)
        ensures
            r matches Ok(snap) ==> {
                &&& snap.readonly@.len() == holder.readonly@.len()
                &&& snap.writable@.len() == holder.writable@.len()
                &&& forall|i: int|
                    0 <= i < holder.readonly@.len() ==> resolved_snapshot_ok(
                        account_chain_snapshot_provider.account_provider,
                        account_chain_snapshot_provider.delegation_record_parser,
                        holder.readonly@[i]@,
                        #[trigger] snap.readonly@[i]@,
                    )
                &&& forall|i: int|
                    0 <= i < holder.writable@.len() ==> resolved_snapshot_ok(
                        account_chain_snapshot_provider.account_provider,
                        account_chain_snapshot_provider.delegation_record_parser,
                        holder.writable@[i]@,
                        #[trigger] snap.writable@[i]@,
                    )
                &&& snap.payer == holder.payer
            },
            r matches Err(e) ==> e is LockboxError,
            (!account_chain_snapshot_provider.account_provider.may_fail() && (forall|i: int|
                0 <= i < holder.readonly@.len() ==> crate::account_chain_snapshot::resolvable(
                    #[trigger] holder.readonly@[i]@,
                )) && (forall|i: int|
                0 <= i < holder.writable@.len() ==> crate::account_chain_snapshot::resolvable(
                    #[trigger] holder.writable@[i]@,
                ))) ==> r is Ok,
    {
        let mut readonly: Vec<AccountChainSnapshot> = Vec::new();
        let n_readonly = holder.readonly.len();
        let mut i: usize = 0;
        while i < n_readonly
            invariant
                0 <= i <= n_readonly,
                n_readonly == holder.readonly@.len(),
                readonly@.len() == i,
                forall|j: int|
                    0 <= j < i ==> resolved_snapshot_ok(
                        account_chain_snapshot_provider.account_provider,
                        account_chain_snapshot_provider.delegation_record_parser,
                        holder.readonly@[j]@,
                        #[trigger] readonly@[j]@,
                    ),
            decreases n_readonly - i,
        {
            match account_chain_snapshot_provider.try_fetch_chain_snapshot_of_pubkey(
                &holder.readonly[i],
            ) {
                Ok(snap) => readonly.push(snap),
                Err(e) => {
                    return Err(TranswiseError::LockboxError(e));
                },
            }
            i += 1;
        }
        let mut writable: Vec<AccountChainSnapshot> = Vec::new();
        let n_writable = holder.writable.len();
        let mut i: usize = 0;
        while i < n_writable
            invariant
                0 <= i <= n_writable,
                n_writable == holder.writable@.len(),
                writable@.len() == i,
                forall|j: int|
                    0 <= j < i ==> resolved_snapshot_ok(
                        account_chain_snapshot_provider.account_provider,
                        account_chain_snapshot_provider.delegation_record_parser,
                        holder.writable@[j]@,
                        #[trigger] writable@[j]@,
                    ),
            decreases n_writable - i,
        {
            match account_chain_snapshot_provider.try_fetch_chain_snapshot_of_pubkey(
                &holder.writable[i],
            ) {
                Ok(snap) => writable.push(snap),
                Err(e) => {
                    return Err(TranswiseError::LockboxError(e));
                },
            }
            i += 1;
        }
        Ok(TransactionAccountsSnapshot { readonly, writable, payer: holder.payer })
    }

    /// The writables flagged as inconsistent. There are none: every
    /// inconsistency is folded into the `Undelegated` state by the
    /// resolver, so this list is always empty.
    pub fn writable_inconsistent_pubkeys(&self) -> (r: Vec<Pubkey>)
        ensures
            r@.len() == 0,
    {
        Vec::new()
    }

    /// The pubkeys of the writables whose state is `Delegated`, in input
    /// order.
    pub fn writable_delegated_pubkeys(&self) -> (r: Vec<Pubkey>)
        ensures
            pubkey_views(r@) == delegated_pubkeys_of(self.writable_models()),
    {
        let ghost models = snapshot_models(self.writable@);
        let mut r: Vec<Pubkey> = Vec::new();
        let n = self.writable.len();
        let mut i: usize = 0;
        while i < n
            invariant
                0 <= i <= n,
                n == self.writable@.len(),
                models == snapshot_models(self.writable@),
                pubkey_views(r@) == delegated_pubkeys_of(models.take(i as int)),
            decreases n - i,
        {
            let ghost prev = r@;
            if self.writable[i].chain_state.is_delegated() {
                r.push(self.writable[i].pubkey);
                proof {
                    assert(pubkey_views(r@) =~= pubkey_views(prev).push(
                        self.writable@[i as int].pubkey@,
                    ));
                }
            }
            i += 1;
            proof {
                assert(models.take(i as int).drop_last() =~= models.take(i as int - 1));
            }
        }
        proof {
            assert(models.take(n as int) =~= models);
        }
        r
    }

    /// The pubkeys of the writables whose state is `Undelegated` and that
    /// are not the payer, in input order.
    pub fn writable_undelegated_non_payer_pubkeys(&self) -> (r: Vec<Pubkey>)
        ensures
            pubkey_views(r@) == undelegated_non_payer_pubkeys_of(self.writable_models(), self.payer@),
    {
        let ghost models = snapshot_models(self.writable@);
        let mut r: Vec<Pubkey> = Vec::new();
        let n = self.writable.len();
        let mut i: usize = 0;
        while i < n
            invariant
                0 <= i <= n,
                n == self.writable@.len(),
                models == snapshot_models(self.writable@),
                pubkey_views(r@) == undelegated_non_payer_pubkeys_of(
                    models.take(i as int),
                    self.payer@,
                ),
            decreases n - i,
        {
            let ghost prev = r@;
            if self.writable[i].chain_state.is_undelegated() && !self.writable[i].pubkey.equals(
                &self.payer,
            ) {
                r.push(self.writable[i].pubkey);
                proof {
                    assert(pubkey_views(r@) =~= pubkey_views(prev).push(
                        self.writable@[i as int].pubkey@,
                    ));
                }
            }
            i += 1;
            proof {
                assert(models.take(i as int).drop_last() =~= models.take(i as int - 1));
            }
        }
        proof {
            assert(models.take(n as int) =~= models);
        }
        r
    }

    /// The pubkeys of the writables whose state is `Undelegated` — data
    /// accounts — the payer included, in input order. The ephemeral policy
    /// rejects transactions for which this list is not empty.
    pub fn writable_data_pubkeys(&self) -> (r: Vec<Pubkey>)
        ensures
            pubkey_views(r@) == data_pubkeys_of(self.writable_models()),
    {
        let ghost models = snapshot_models(self.writable@);
        let mut r: Vec<Pubkey> = Vec::new();
        let n = self.writable.len();
        let mut i: usize = 0;
        while i < n
            invariant
                0 <= i <= n,
                n == self.writable@.len(),
                models == snapshot_models(self.writable@),
                pubkey_views(r@) == data_pubkeys_of(models.take(i as int)),
            decreases n - i,
        {
            let ghost prev = r@;
            if self.writable[i].chain_state.is_undelegated() {
                r.push(self.writable[i].pubkey);
                proof {
                    assert(pubkey_views(r@) =~= pubkey_views(prev).push(
                        self.writable@[i as int].pubkey@,
                    ));
                }
            }
            i += 1;
            proof {
                assert(models.take(i as int).drop_last() =~= models.take(i as int - 1));
            }
        }
        proof {
            assert(models.take(n as int) =~= models);
        }
        r
    }

    /// The pubkeys of the writables whose state is `Wallet`, in input order.
    pub fn writable_wallet_pubkeys(&self) -> (r: Vec<Pubkey>)
        ensures
            pubkey_views(r@) == wallet_pubkeys_of(self.writable_models()),
    {
        let ghost models = snapshot_models(self.writable@);
        let mut r: Vec<Pubkey> = Vec::new();
        let n = self.writable.len();
        let mut i: usize = 0;
        while i < n
            invariant
                0 <= i <= n,
                n == self.writable@.len(),
                models == snapshot_models(self.writable@),
                pubkey_views(r@) == wallet_pubkeys_of(models.take(i as int)),
            decreases n - i,
        {
            let ghost prev = r@;
            if self.writable[i].chain_state.is_wallet() {
                r.push(self.writable[i].pubkey);
                proof {
                    assert(pubkey_views(r@) =~= pubkey_views(prev).push(
                        self.writable@[i as int].pubkey@,
                    ));
                }
            }
            i += 1;
            proof {
                assert(models.take(i as int).drop_last() =~= models.take(i as int - 1));
            }
        }
        proof {
            assert(models.take(n as int) =~= models);
        }
        r
    }
}

} // verus!

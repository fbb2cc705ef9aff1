use vstd::prelude::*;

use crate::account_chain_snapshot::AccountChainSnapshotModel;
use crate::pubkey::Pubkey;
use crate::transaction_accounts_snapshot::{
    delegated_pubkeys_of, pubkey_views, snapshot_models, undelegated_non_payer_pubkeys_of,
    wallet_pubkeys_of, TransactionAccountsSnapshot, TransactionAccountsSnapshotModel,
};

verus! {

/// Why a transaction cannot be routed anywhere.
#[derive(Clone, Debug, PartialEq, Eq)]
pub enum UnroutableReason {
    /// The writables mix delegated accounts with undelegated non-payer
    /// accounts; no single cluster can take all the writes.
    ContainsBothDelegatedAndUndelegatedWritable {
        writable_delegated_pubkeys: Vec<Pubkey>,
        writable_undelegated_pubkeys: Vec<Pubkey>,
    },
    /// Writables were flagged as inconsistent. The resolver folds every
    /// inconsistency into the `Undelegated` state, so the classifier never
    /// produces this; it is kept for deployments that preserve the flag.
    WritablesIncludeInconsistentAccounts { writable_inconsistent_pubkeys: Vec<Pubkey> },
}

/// The routing verdict for one transaction, carrying the snapshot it was
/// made from.
#[derive(Clone, Debug, PartialEq, Eq)]
pub enum Endpoint {
    /// Route to the base chain.
    Chain { transaction_accounts_snapshot: TransactionAccountsSnapshot },
    /// Route to the ephemeral validator; carries the delegated writables.
    Ephemeral {
        transaction_accounts_snapshot: TransactionAccountsSnapshot,
        writable_delegated_pubkeys: Vec<Pubkey>,
    },
    /// Route nowhere; a terminal, client-visible error.
    Unroutable {
        transaction_accounts_snapshot: TransactionAccountsSnapshot,
        reason: UnroutableReason,
    },
}

/// The mathematical content of an `UnroutableReason`.
pub enum UnroutableReasonModel {
    ContainsBothDelegatedAndUndelegatedWritable {
        writable_delegated_pubkeys: Seq<Seq<u8>>,
        writable_undelegated_pubkeys: Seq<Seq<u8>>,
    },
    WritablesIncludeInconsistentAccounts { writable_inconsistent_pubkeys: Seq<Seq<u8>> },
}

impl View for UnroutableReason {
    type V = UnroutableReasonModel;

    open spec fn view(&self) -> UnroutableReasonModel {
        match self {
            UnroutableReason::ContainsBothDelegatedAndUndelegatedWritable {
                writable_delegated_pubkeys,
                writable_undelegated_pubkeys,
            } => UnroutableReasonModel::ContainsBothDelegatedAndUndelegatedWritable {
                writable_delegated_pubkeys: pubkey_views(writable_delegated_pubkeys@),
                writable_undelegated_pubkeys: pubkey_views(writable_undelegated_pubkeys@),
            },
            UnroutableReason::WritablesIncludeInconsistentAccounts {
                writable_inconsistent_pubkeys,
            } => UnroutableReasonModel::WritablesIncludeInconsistentAccounts {
                writable_inconsistent_pubkeys: pubkey_views(writable_inconsistent_pubkeys@),
            },
        }
    }
}

/// The mathematical content of an `Endpoint`.
pub enum EndpointModel {
    Chain { transaction_accounts_snapshot: TransactionAccountsSnapshotModel },
    Ephemeral {
        transaction_accounts_snapshot: TransactionAccountsSnapshotModel,
        writable_delegated_pubkeys: Seq<Seq<u8>>,
    },
    Unroutable {
        transaction_accounts_snapshot: TransactionAccountsSnapshotModel,
        reason: UnroutableReasonModel,
    },
}

impl View for Endpoint {
    type V = EndpointModel;

    open spec fn view(&self) -> EndpointModel {
        match self {
            Endpoint::Chain { transaction_accounts_snapshot } => EndpointModel::Chain {
                transaction_accounts_snapshot: transaction_accounts_snapshot@,
            },
            Endpoint::Ephemeral {
                transaction_accounts_snapshot,
                writable_delegated_pubkeys,
            } => EndpointModel::Ephemeral {
                transaction_accounts_snapshot: transaction_accounts_snapshot@,
                writable_delegated_pubkeys: pubkey_views(writable_delegated_pubkeys@),
            },
            Endpoint::Unroutable {
                transaction_accounts_snapshot,
                reason,
            } => EndpointModel::Unroutable {
                transaction_accounts_snapshot: transaction_accounts_snapshot@,
                reason: reason@,
            },
        }
    }
}

/// The classifier: a total function from a transaction-accounts snapshot to
/// its routing verdict. With no delegated writable the transaction belongs
/// on the base chain; with delegated writables and undelegated non-payer
/// writables it is unroutable; otherwise it goes to the ephemeral
/// validator. Readonly accounts never influence the verdict.
pub open spec fn endpoint_of(snapshot: TransactionAccountsSnapshotModel) -> EndpointModel {
    let delegated = delegated_pubkeys_of(snapshot.writable);
    let undelegated = undelegated_non_payer_pubkeys_of(snapshot.writable, snapshot.payer);
    if delegated.len() == 0 {
        EndpointModel::Chain { transaction_accounts_snapshot: snapshot }
    } else if undelegated.len() > 0 {
        EndpointModel::Unroutable {
            transaction_accounts_snapshot: snapshot,
            reason: UnroutableReasonModel::ContainsBothDelegatedAndUndelegatedWritable {
                writable_delegated_pubkeys: delegated,
                writable_undelegated_pubkeys: undelegated,
            },
        }
    } else {
        EndpointModel::Ephemeral {
            transaction_accounts_snapshot: snapshot,
            writable_delegated_pubkeys: delegated,
        }
    }
}

/// The snapshot an endpoint carries.
pub open spec fn snapshot_of_endpoint(e: Endpoint) -> TransactionAccountsSnapshot {
    match e {
        Endpoint::Chain { transaction_accounts_snapshot } => transaction_accounts_snapshot,
        Endpoint::Ephemeral { transaction_accounts_snapshot, .. } => transaction_accounts_snapshot,
        Endpoint::Unroutable { transaction_accounts_snapshot, .. } => transaction_accounts_snapshot,
    }
}

impl Endpoint {
    /// Classifies a snapshot into its routing verdict, carrying the
    /// snapshot along unchanged.
    pub fn from_snapshot(snapshot: TransactionAccountsSnapshot) -> (r: Endpoint)
        ensures
            r@ == endpoint_of(snapshot@),
            snapshot_of_endpoint(r) == snapshot,
    {
        let delegated = snapshot.writable_delegated_pubkeys();
        if delegated.len() == 0 {
            proof {
                assert(pubkey_views(delegated@).len() == 0);
            }
            return Endpoint::Chain { transaction_accounts_snapshot: snapshot };
        }
        let undelegated = snapshot.writable_undelegated_non_payer_pubkeys();
        if undelegated.len() > 0 {
            proof {
                assert(pubkey_views(undelegated@).len() > 0);
            }
            return Endpoint::Unroutable {
                transaction_accounts_snapshot: snapshot,
                reason: UnroutableReason::ContainsBothDelegatedAndUndelegatedWritable {
                    writable_delegated_pubkeys: delegated,
                    writable_undelegated_pubkeys: undelegated,
                },
            };
        }
        Endpoint::Ephemeral {
            transaction_accounts_snapshot: snapshot,
            writable_delegated_pubkeys: delegated,
        }
    }

    /// Whether the verdict is `Chain`.
    pub fn is_chain(&self) -> (r: bool)
        ensures
            r == (self@ is Chain),
    {
        match self {
            Endpoint::Chain { .. } => true,
            _ => false,
        }
    }

    /// Whether the verdict is `Ephemeral`.
    pub fn is_ephemeral(&self) -> (r: bool)
        ensures
            r == (self@ is Ephemeral),
    {
        match self {
            Endpoint::Ephemeral { .. } => true,
            _ => false,
        }
    }

    /// Whether the verdict is `Unroutable`.
    pub fn is_unroutable(&self) -> (r: bool)
        ensures
            r == (self@ is Unroutable),
    {
        match self {
            Endpoint::Unroutable { .. } => true,
            _ => false,
        }
    }
}

/// Law: the classifier is deterministic, and classifying the same snapshot
/// twice yields equal verdicts.
pub proof fn lemma_classifier_idempotent(
    snapshot: TransactionAccountsSnapshotModel,
    r1: EndpointModel,
    r2: EndpointModel,
)
    requires
        r1 == endpoint_of(snapshot),
        r2 == endpoint_of(snapshot),
    ensures
        r1 == r2,
{
}

/// Law: every writable account falls in exactly one class, so the union of
/// the delegated, undelegated-non-payer and wallet lists is the whole
/// writable set, up to the payer carve-out (an undelegated payer is listed
/// nowhere).
pub proof fn lemma_writable_partition(
    writables: Seq<AccountChainSnapshotModel>,
    payer: Seq<u8>,
    i: int,
)
    requires
        0 <= i < writables.len(),
    ensures
        delegated_pubkeys_of(writables).contains(writables[i].pubkey)
            || undelegated_non_payer_pubkeys_of(writables, payer).contains(writables[i].pubkey)
            || wallet_pubkeys_of(writables).contains(writables[i].pubkey) || (
        writables[i].chain_state is Undelegated && writables[i].pubkey == payer),
    decreases writables.len(),
{
    let last = writables.last();
    if i == writables.len() - 1 {
        if last.chain_state is Delegated {
            let l = delegated_pubkeys_of(writables);
            assert(l == delegated_pubkeys_of(writables.drop_last()).push(last.pubkey));
            assert(l[l.len() - 1] == last.pubkey);
        } else if last.chain_state is Wallet {
            let l = wallet_pubkeys_of(writables);
            assert(l == wallet_pubkeys_of(writables.drop_last()).push(last.pubkey));
            assert(l[l.len() - 1] == last.pubkey);
        } else if last.pubkey != payer {
            let l = undelegated_non_payer_pubkeys_of(writables, payer);
            assert(l == undelegated_non_payer_pubkeys_of(writables.drop_last(), payer).push(
                last.pubkey,
            ));
            assert(l[l.len() - 1] == last.pubkey);
        }
    } else {
        lemma_writable_partition(writables.drop_last(), payer, i);
        assert(writables.drop_last()[i] == writables[i]);
        let p = writables[i].pubkey;
        if delegated_pubkeys_of(writables.drop_last()).contains(p) {
            let j = choose|j: int|
                0 <= j < delegated_pubkeys_of(writables.drop_last()).len()
                    && delegated_pubkeys_of(writables.drop_last())[j] == p;
            assert(delegated_pubkeys_of(writables)[j] == p);
        } else if undelegated_non_payer_pubkeys_of(writables.drop_last(), payer).contains(p) {
            let j = choose|j: int|
                0 <= j < undelegated_non_payer_pubkeys_of(writables.drop_last(), payer).len()
                    && undelegated_non_payer_pubkeys_of(writables.drop_last(), payer)[j] == p;
            assert(undelegated_non_payer_pubkeys_of(writables, payer)[j] == p);
        } else if wallet_pubkeys_of(writables.drop_last()).contains(p) {
            let j = choose|j: int|
                0 <= j < wallet_pubkeys_of(writables.drop_last()).len() && wallet_pubkeys_of(
                    writables.drop_last(),
                )[j] == p;
            assert(wallet_pubkeys_of(writables)[j] == p);
        }
    }
}

/// Law: the classified lists list only writable pubkeys: whatever appears
/// in the delegated, undelegated-non-payer or wallet list is the pubkey of
/// some writable.
pub proof fn lemma_classified_pubkeys_are_writables(
    writables: Seq<AccountChainSnapshotModel>,
    payer: Seq<u8>,
    p: Seq<u8>,
)
    requires
        delegated_pubkeys_of(writables).contains(p) || undelegated_non_payer_pubkeys_of(
            writables,
            payer,
        ).contains(p) || wallet_pubkeys_of(writables).contains(p),
    ensures
        exists|j: int| 0 <= j < writables.len() && (#[trigger] writables[j]).pubkey == p,
    decreases writables.len(),
{
    let shorter = writables.drop_last();
    if delegated_pubkeys_of(shorter).contains(p) || undelegated_non_payer_pubkeys_of(
        shorter,
        payer,
    ).contains(p) || wallet_pubkeys_of(shorter).contains(p) {
        lemma_classified_pubkeys_are_writables(shorter, payer, p);
        let j = choose|j: int| 0 <= j < shorter.len() && (#[trigger] shorter[j]).pubkey == p;
        assert(writables[j].pubkey == p);
    } else {
        assert(writables.last().pubkey == p) by {
            if delegated_pubkeys_of(writables).contains(p) {
                let l = delegated_pubkeys_of(writables);
                let rest = delegated_pubkeys_of(shorter);
                let j = choose|j: int| 0 <= j < l.len() && l[j] == p;
                if j < rest.len() {
                    assert(rest[j] == p);
                }
            } else if undelegated_non_payer_pubkeys_of(writables, payer).contains(p) {
                let l = undelegated_non_payer_pubkeys_of(writables, payer);
                let rest = undelegated_non_payer_pubkeys_of(shorter, payer);
                let j = choose|j: int| 0 <= j < l.len() && l[j] == p;
                if j < rest.len() {
                    assert(rest[j] == p);
                }
            } else {
                let l = wallet_pubkeys_of(writables);
                let rest = wallet_pubkeys_of(shorter);
                let j = choose|j: int| 0 <= j < l.len() && l[j] == p;
                if j < rest.len() {
                    assert(rest[j] == p);
                }
            }
        }
        assert(writables[writables.len() - 1].pubkey == p);
    }
}

} // verus!

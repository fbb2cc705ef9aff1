use vstd::prelude::*;

use crate::account::{opt_account_model, Account, AccountModel};
use crate::errors::CoreResult;
use crate::pubkey::Pubkey;

verus! {

/// The capability of fetching accounts from a cluster. A result's slot is
/// the observation slot of the whole batch; an absent account is a `None`
/// value, never an error. The in-memory implementation below serves fixed
/// contents; the process edge that talks to a real cluster fills one with
/// what it fetched and hands it to the verified logic.
pub trait AccountProvider {
    /// The observation slot this provider reports.
    spec fn at_slot_spec(&self) -> u64;

    /// A slot this provider had already observed before the call; the slot
    /// of every result is at least this.
    spec fn last_observed_slot(&self) -> u64;

    /// The account contents this provider serves for the given address.
    spec fn account_spec(&self, pubkey: Seq<u8>) -> Option<AccountModel>;

    /// Whether calls on this provider can fail at all. The in-memory
    /// provider never does; an implementation backed by transport may.
    spec fn may_fail(&self) -> bool;

    /// Fetches one account and the slot at which it was observed.
    fn get_account(&self, pubkey: &Pubkey, min_context_slot: Option<u64>) -> (r: CoreResult<
        (u64, Option<Account>),
    >)
        ensures
            r matches Ok((slot, acc)) ==> slot == self.at_slot_spec() && slot
                >= self.last_observed_slot() && opt_account_model(acc) == self.account_spec(
                pubkey@,
            ),
            r matches Err(_) ==> self.may_fail(),
    ;

    /// Fetches several accounts in one batch, observed at one slot. The
    /// result list has the same length and order as the input list.
    fn get_multiple_accounts(&self, pubkeys: &Vec<Pubkey>, min_context_slot: Option<u64>) -> (r:
        CoreResult<(u64, Vec<Option<Account>>)>)
        ensures
            r matches Ok((slot, accounts)) ==> slot == self.at_slot_spec() && slot
                >= self.last_observed_slot() && accounts@.len() == pubkeys@.len() && (forall|
                i: int,
            |
                0 <= i < pubkeys@.len() ==> opt_account_model(#[trigger] accounts@[i])
                    == self.account_spec(pubkeys@[i]@)),
            r matches Err(_) ==> self.may_fail(),
    ;
}

/// The account contents of a list of entries: the first entry whose address
/// matches, scanned front to back.
pub open spec fn lookup_account(entries: Seq<(Pubkey, Account)>, pubkey: Seq<u8>) -> Option<
    AccountModel,
>
    decreases entries.len(),
{
    if entries.len() == 0 {
        None
    } else if entries[0].0@ == pubkey {
        Some(entries[0].1@)
    } else {
        lookup_account(entries.drop_first(), pubkey)
    }
}

/// Scanning past entries that do not match the address does not change the
/// lookup's result.
proof fn lemma_lookup_skip(entries: Seq<(Pubkey, Account)>, pubkey: Seq<u8>, i: int)
    requires
        0 <= i <= entries.len(),
        forall|j: int| 0 <= j < i ==> (#[trigger] entries[j]).0@ != pubkey,
    ensures
        lookup_account(entries, pubkey) == lookup_account(entries.skip(i), pubkey),
    decreases i,
{
    if i > 0 {
        lemma_lookup_skip(entries.drop_first(), pubkey, i - 1);
        assert(entries.drop_first().skip(i - 1) =~= entries.skip(i));
    } else {
        assert(entries.skip(0) =~= entries);
    }
}

/// An in-memory account provider: serves a fixed set of accounts, all
/// observed at one fixed slot, and never fails. Tests drive the resolver
/// with it, and the process edge fills one with what it fetched from a real
/// cluster.
#[derive(Default)]
pub struct AccountProviderStub {
    pub at_slot: u64,
    pub accounts: Vec<(Pubkey, Account)>,
}

impl AccountProviderStub {
    /// Adds an account to the served set.
    pub fn add(&mut self, pubkey: Pubkey, account: Account)
        ensures
            final(self).accounts@ == old(self).accounts@.push((pubkey, account)),
            final(self).at_slot == old(self).at_slot,
    {
        self.accounts.push((pubkey, account));
    }

    /// The served account for an address, if any.
    fn find(&self, pubkey: &Pubkey) -> (r: Option<Account>)
        ensures
            opt_account_model(r) == lookup_account(self.accounts@, pubkey@),
    {
        let n = self.accounts.len();
        let mut i: usize = 0;
        while i < n
            invariant
                0 <= i <= n,
                n == self.accounts@.len(),
                forall|j: int| 0 <= j < i ==> (#[trigger] self.accounts@[j]).0@ != pubkey@,
            decreases n - i,
        {
            if self.accounts[i].0.equals(pubkey) {
                let acc = self.accounts[i].1.duplicate();
                proof {
                    lemma_lookup_skip(self.accounts@, pubkey@, i as int);
                    assert(self.accounts@.skip(i as int)[0] == self.accounts@[i as int]);
                }
                return Some(acc);
            }
            i += 1;
        }
        proof {
            lemma_lookup_skip(self.accounts@, pubkey@, n as int);
        }
        None
    }
}

impl AccountProvider for AccountProviderStub {
    open spec fn at_slot_spec(&self) -> u64 {
        self.at_slot
    }

    open spec fn last_observed_slot(&self) -> u64 {
        self.at_slot
    }

    open spec fn account_spec(&self, pubkey: Seq<u8>) -> Option<AccountModel> {
        lookup_account(self.accounts@, pubkey)
    }

    open spec fn may_fail(&self) -> bool {
        false
    }

    fn get_account(&self, pubkey: &Pubkey, min_context_slot: Option<u64>) -> (r: CoreResult<
        (u64, Option<Account>),
    >) {
        Ok((self.at_slot, self.find(pubkey)))
    }

    fn get_multiple_accounts(&self, pubkeys: &Vec<Pubkey>, min_context_slot: Option<u64>) -> (r:
        CoreResult<(u64, Vec<Option<Account>>)>) {
        let mut accounts: Vec<Option<Account>> = Vec::new();
        let n = pubkeys.len();
        let mut i: usize = 0;
        while i < n
            invariant
                0 <= i <= n,
                n == pubkeys@.len(),
                accounts@.len() == i,
                forall|j: int|
                    0 <= j < i ==> opt_account_model(#[trigger] accounts@[j]) == self.account_spec(
                        pubkeys@[j]@,
                    ),
            decreases n - i,
        {
            accounts.push(self.find(&pubkeys[i]));
            i += 1;
        }
        Ok((self.at_slot, accounts))
    }
}

} // verus!

use vstd::prelude::*;

use crate::pubkey::Pubkey;

verus! {

/// How often the ephemeral validator commits the state of a delegated
/// account back to the base chain.
#[derive(Clone, Copy, Debug, PartialEq, Eq, Hash, Structural)]
pub enum CommitFrequency {
    /// Commit every time this number of milliseconds has passed.
    Millis(u64),
}

impl CommitFrequency {
    /// The frequency as a plain number of milliseconds.
    pub fn to_millis(&self) -> (r: u64)
        ensures
            self matches CommitFrequency::Millis(ms) && r == ms,
    {
        match self {
            CommitFrequency::Millis(ms) => *ms,
        }
    }
}

impl Default for CommitFrequency {
    /// The frequency assumed when none is recorded.
    fn default() -> (r: CommitFrequency)
        ensures
            r == CommitFrequency::Millis(300000u64),
    {
        CommitFrequency::Millis(300000)
    }
}

/// The semantic content of a delegation-record account: who delegated the
/// account, who owned it originally, when it was delegated, how often its
/// state is committed back, and the record account's balance.
#[derive(Clone, Copy, Debug, PartialEq, Eq, Hash)]
pub struct DelegationRecord {
    /// The authority that delegated the account.
    pub authority: Pubkey,
    /// The original owner of the delegated account.
    pub owner: Pubkey,
    /// The slot at which the delegation was made.
    pub delegation_slot: u64,
    /// The frequency at which the ephemeral validator commits the account
    /// state back to the base chain.
    pub commit_frequency: CommitFrequency,
    /// The balance of the delegation-record account.
    pub lamports: u64,
}

impl DelegationRecord {
    /// A record with the given original owner and the default commit
    /// frequency used for fresh delegations.
    pub fn default_with_owner(owner: Pubkey) -> (r: DelegationRecord)
        ensures
            r.owner == owner,
            r.commit_frequency == CommitFrequency::Millis(1000u64),
            r.authority@ == crate::pubkey::system_program_id_bytes(),
            r.delegation_slot == 0,
            r.lamports == 0,
    {
        DelegationRecord {
            authority: crate::pubkey::system_program_id(),
            owner,
            delegation_slot: 0,
            commit_frequency: CommitFrequency::Millis(1000),
            lamports: 0,
        }
    }
}

} // verus!

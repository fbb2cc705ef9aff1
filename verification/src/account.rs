use vstd::prelude::*;

use crate::pubkey::{system_program_id, system_program_id_bytes, Pubkey};

verus! {

/// An account as observed on a cluster: its balance, its data bytes, the
/// program that owns it and whether it is executable. Immutable once fetched.
#[derive(Clone, Debug, PartialEq, Eq)]
pub struct Account {
    pub lamports: u64,
    pub data: Vec<u8>,
    pub owner: Pubkey,
    pub executable: bool,
}

/// The mathematical content of an account, over sequences and unbounded
/// integers.
pub struct AccountModel {
    pub lamports: int,
    pub data: Seq<u8>,
    pub owner: Seq<u8>,
    pub executable: bool,
}

impl View for Account {
    type V = AccountModel;

    open spec fn view(&self) -> AccountModel {
        AccountModel {
            lamports: self.lamports as int,
            data: self.data@,
            owner: self.owner@,
            executable: self.executable,
        }
    }
}

/// What an absent account is treated as: zero balance, no data, owned by the
/// system program, not executable.
pub open spec fn default_account_model() -> AccountModel {
    AccountModel {
        lamports: 0,
        data: Seq::<u8>::empty(),
        owner: system_program_id_bytes(),
        executable: false,
    }
}

impl Account {
    /// A copy of this account with the same content.
    pub fn duplicate(&self) -> (r: Account)
        ensures
            r@ == self@,
    {
        let data = self.data.clone();
        proof {
            assert(data@ =~= self.data@);
        }
        Account { lamports: self.lamports, data, owner: self.owner, executable: self.executable }
    }
}

impl Default for Account {
    /// The account value used where no account exists on chain.
    fn default() -> (r: Account)
        ensures
            r@ == default_account_model(),
    {
        let data: Vec<u8> = Vec::new();
        proof {
            assert(data@ =~= Seq::<u8>::empty());
        }
        Account { lamports: 0, data, owner: system_program_id(), executable: false }
    }
}

/// The content of an optionally present account.
pub open spec fn opt_account_model(o: Option<Account>) -> Option<AccountModel> {
    match o {
        Some(a) => Some(a@),
        None => None,
    }
}

} // verus!

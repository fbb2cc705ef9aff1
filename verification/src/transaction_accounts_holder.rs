use vstd::prelude::*;

use crate::pubkey::Pubkey;

verus! {

/// The account lists of one transaction: the readonly pubkeys, the writable
/// pubkeys, and the payer. The payer is expected to appear in `writable`.
#[derive(Clone, Debug, PartialEq, Eq)]
pub struct TransactionAccountsHolder {
    pub readonly: Vec<Pubkey>,
    pub writable: Vec<Pubkey>,
    pub payer: Pubkey,
}

} // verus!

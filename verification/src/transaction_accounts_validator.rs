use vstd::prelude::*;

use crate::errors::{TranswiseError, TranswiseResult};
use crate::transaction_accounts_snapshot::{
    data_pubkeys_of, pubkey_views, TransactionAccountsSnapshot,
};

verus! {

/// The policy applied before a transaction is run on the ephemeral
/// validator: no writable may be an undelegated data account. Wallet
/// writables, the payer included, are always permitted.
pub trait TransactionAccountsValidator {
    /// Accepts the transaction exactly when none of its writables is an
    /// undelegated data account; rejects it otherwise, listing the
    /// offending pubkeys.
    fn validate_ephemeral_transaction_accounts(
        &self,
        transaction_accounts: &TransactionAccountsSnapshot,
    ) -> (r: TranswiseResult<()>)
        ensures
            match r {
                Ok(_) => data_pubkeys_of(transaction_accounts.writable_models()).len() == 0,
                Err(e) => {
                    &&& e matches TranswiseError::TransactionIncludeDataAccountsAsWritable {
                        writable_data_pubkeys,
                    }
                    &&& pubkey_views(writable_data_pubkeys@) == data_pubkeys_of(
                        transaction_accounts.writable_models(),
                    )
                    &&& data_pubkeys_of(transaction_accounts.writable_models()).len() > 0
                },
            },
    ;
}

/// The production implementation of the ephemeral policy.
pub struct TransactionAccountsValidatorImpl;

impl TransactionAccountsValidator for TransactionAccountsValidatorImpl {
    fn validate_ephemeral_transaction_accounts(
        &self,
        transaction_accounts: &TransactionAccountsSnapshot,
    ) -> (r: TranswiseResult<()>) {
        let writable_data_pubkeys = transaction_accounts.writable_data_pubkeys();
        if writable_data_pubkeys.len() > 0 {
            proof {
                assert(pubkey_views(writable_data_pubkeys@).len() > 0);
            }
            return Err(
                TranswiseError::TransactionIncludeDataAccountsAsWritable { writable_data_pubkeys },
            );
        }
        proof {
            assert(pubkey_views(writable_data_pubkeys@).len() == 0);
        }
        Ok(())
    }
}

} // verus!

use vstd::prelude::*;

verus! {

/// Why an account is not in a valid delegated state. Produced by the
/// chain-snapshot resolver and folded into the `Undelegated` chain state;
/// never surfaced as an error on its own.
#[derive(Clone, Debug, PartialEq, Eq, Hash)]
pub enum DelegationInconsistency {
    /// The base account does not exist on chain.
    AccountNotFound,
    /// The base account exists but is not owned by the delegation program.
    AccountInvalidOwner,
    /// The base account is owned by the delegation program but its
    /// delegation-record account does not exist.
    DelegationRecordNotFound,
    /// The delegation-record account exists but is not owned by the
    /// delegation program.
    DelegationRecordInvalidOwner,
    /// The delegation-record account's data bytes did not parse as a
    /// delegation record; carries the parser's message.
    DelegationRecordDataInvalid(String),
}

/// The mathematical content of a `DelegationInconsistency`: the same
/// variants, with the parser's message as a character sequence.
pub enum DelegationInconsistencyModel {
    AccountNotFound,
    AccountInvalidOwner,
    DelegationRecordNotFound,
    DelegationRecordInvalidOwner,
    DelegationRecordDataInvalid(Seq<char>),
}

impl View for DelegationInconsistency {
    type V = DelegationInconsistencyModel;

    open spec fn view(&self) -> DelegationInconsistencyModel {
        match self {
            DelegationInconsistency::AccountNotFound => DelegationInconsistencyModel::AccountNotFound,
            DelegationInconsistency::AccountInvalidOwner => DelegationInconsistencyModel::AccountInvalidOwner,
            DelegationInconsistency::DelegationRecordNotFound => DelegationInconsistencyModel::DelegationRecordNotFound,
            DelegationInconsistency::DelegationRecordInvalidOwner => DelegationInconsistencyModel::DelegationRecordInvalidOwner,
            DelegationInconsistency::DelegationRecordDataInvalid(msg) => DelegationInconsistencyModel::DelegationRecordDataInvalid(
                msg@,
            ),
        }
    }
}

} // verus!

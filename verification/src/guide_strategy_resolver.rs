use vstd::prelude::*;

use crate::guide_strategy::{GuideStrategy, GuideStrategyModel, RequestEndpoint};
use crate::provider::AccountProvider;
use crate::pubkey::{parse_pubkey, pubkey_of_base58};

verus! {

/// Where a try-ephemeral intent lands, given the ephemeral cluster's
/// contents: an unparseable address goes to chain (the chain will report
/// the error to the client); an address the ephemeral validator holds goes
/// to ephemeral — unless a program was asked for and the account is not
/// executable; an absent address goes to both for subscriptions (the
/// account may be created later) and to chain otherwise.
pub open spec fn account_guide_decision<T: AccountProvider>(
    provider: T,
    addr: Seq<char>,
    is_program: bool,
    is_subscription: bool,
) -> RequestEndpoint {
    match pubkey_of_base58(addr) {
        None => RequestEndpoint::Chain,
        Some(pk) => match provider.account_spec(pk) {
            None => if is_subscription {
                RequestEndpoint::Both
            } else {
                RequestEndpoint::Chain
            },
            Some(acc) => if is_program && !acc.executable {
                RequestEndpoint::Chain
            } else {
                RequestEndpoint::Ephemeral
            },
        },
    }
}

/// The endpoint each strategy resolves to: the fixed strategies pass
/// through unchanged, signature lookups go to both clusters best-effort,
/// and the address strategies consult the ephemeral cluster's contents.
pub open spec fn resolved_endpoint_of<T: AccountProvider>(
    provider: T,
    strategy: GuideStrategyModel,
) -> RequestEndpoint {
    match strategy {
        GuideStrategyModel::Chain => RequestEndpoint::Chain,
        GuideStrategyModel::Ephemeral => RequestEndpoint::Ephemeral,
        GuideStrategyModel::Both => RequestEndpoint::Both,
        GuideStrategyModel::TryEphemeralForAccount(addr, is_sub) => account_guide_decision(
            provider,
            addr,
            false,
            is_sub,
        ),
        GuideStrategyModel::TryEphemeralForProgram(addr, is_sub) => account_guide_decision(
            provider,
            addr,
            true,
            is_sub,
        ),
        GuideStrategyModel::TryEphemeralForSignature(_, _) => RequestEndpoint::Both,
    }
}

/// Resolves guide strategies against an ephemeral cluster's account
/// provider.
pub struct GuideStrategyResolver<T: AccountProvider> {
    pub ephemeral_account_provider: T,
}

impl<T: AccountProvider> GuideStrategyResolver<T> {
    /// Builds a resolver over the given ephemeral account provider.
    pub fn new(ephemeral_account_provider: T) -> (r: Self)
        ensures
            r.ephemeral_account_provider == ephemeral_account_provider,
    {
        GuideStrategyResolver { ephemeral_account_provider }
    }

    /// Resolves one strategy to the endpoint the message should go to.
    /// When the provider cannot fail the result is exactly the decision
    /// over its contents; a fetch failure falls back to chain.
    pub fn resolve(&self, strategy: &GuideStrategy) -> (r: RequestEndpoint)
        ensures
            !self.ephemeral_account_provider.may_fail() ==> r == resolved_endpoint_of(
                self.ephemeral_account_provider,
                strategy@,
            ),
            r == resolved_endpoint_of(self.ephemeral_account_provider, strategy@) || r
                is Chain,
    {
        match strategy {
            GuideStrategy::Chain => RequestEndpoint::Chain,
            GuideStrategy::Ephemeral => RequestEndpoint::Ephemeral,
            GuideStrategy::Both => RequestEndpoint::Both,
            GuideStrategy::TryEphemeralForAccount(address, is_subscription) => self
                .guide_by_address(address, false, *is_subscription),
            GuideStrategy::TryEphemeralForProgram(program_id, is_subscription) => self
                .guide_by_address(program_id, true, *is_subscription),
            GuideStrategy::TryEphemeralForSignature(_, _) => RequestEndpoint::Both,
        }
    }

    /// Consults the ephemeral provider for one address and decides the
    /// endpoint per `account_guide_decision`.
    fn guide_by_address(&self, address: &String, is_program: bool, is_subscription: bool) -> (r:
        RequestEndpoint)
        ensures
            !self.ephemeral_account_provider.may_fail() ==> r == account_guide_decision(
                self.ephemeral_account_provider,
                address@,
                is_program,
                is_subscription,
            ),
            r == account_guide_decision(
                self.ephemeral_account_provider,
                address@,
                is_program,
                is_subscription,
            ) || r is Chain,
    {
        let pubkey = match parse_pubkey(address.as_str()) {
            Some(pk) => pk,
            None => {
                return RequestEndpoint::Chain;
            },
        };
        let account = match self.ephemeral_account_provider.get_account(&pubkey, None) {
            Ok((_slot, Some(acc))) => acc,
            Ok((_slot, None)) => {
                return if is_subscription {
                    RequestEndpoint::Both
                } else {
                    RequestEndpoint::Chain
                };
            },
            Err(_) => {
                return RequestEndpoint::Chain;
            },
        };
        if is_program && !account.executable {
            RequestEndpoint::Chain
        } else {
            RequestEndpoint::Ephemeral
        }
    }
}

} // verus!

use conjunto::account::Account;
use conjunto::guide_strategy::{guide_strategy_from_pubsub_msg, GuideStrategy, RequestEndpoint};
use conjunto::guide_strategy_resolver::GuideStrategyResolver;
use conjunto::provider::AccountProviderStub;
use conjunto::pubkey::{system_program_id, Pubkey};

fn unique_address() -> (Pubkey, String) {
    let pk = solana_sdk::pubkey::Pubkey::new_unique();
    (Pubkey::new(pk.to_bytes()), pk.to_string())
}

fn provider_with(accounts: Vec<(Pubkey, Account)>) -> AccountProviderStub {
    let mut provider = AccountProviderStub::default();
    provider.at_slot = 42;
    for (pubkey, account) in accounts {
        provider.add(pubkey, account);
    }
    provider
}

fn plain_account(executable: bool) -> Account {
    Account { lamports: 1000, data: vec![], owner: system_program_id(), executable }
}

// -----------------
// Strategy extraction
// -----------------
#[test]
fn test_strategy_for_unknown_method() {
    let strategy = guide_strategy_from_pubsub_msg(r#"{"method":"foo","params":[]}"#);
    assert_eq!(strategy, GuideStrategy::Chain);
}

#[test]
fn test_strategy_for_account_subscribe() {
    let (_, address) = unique_address();
    let msg = format!(
        r#"{{"jsonrpc":"2.0","id":1,"method":"accountSubscribe","params":["{}"]}}"#,
        address
    );
    let strategy = guide_strategy_from_pubsub_msg(&msg);
    assert_eq!(strategy, GuideStrategy::TryEphemeralForAccount(address, true));
}

#[test]
fn test_strategy_for_program_subscribe() {
    let (_, address) = unique_address();
    let msg = format!(r#"{{"method":"programSubscribe","params":["{}"]}}"#, address);
    let strategy = guide_strategy_from_pubsub_msg(&msg);
    assert_eq!(strategy, GuideStrategy::TryEphemeralForProgram(address, true));
}

#[test]
fn test_strategy_for_signature_subscribe() {
    let msg = r#"{"method":"signatureSubscribe","params":["some-signature"]}"#;
    let strategy = guide_strategy_from_pubsub_msg(msg);
    assert_eq!(
        strategy,
        GuideStrategy::TryEphemeralForSignature("some-signature".to_string(), true)
    );
}

#[test]
fn test_strategy_for_slot_and_unsubscribe_forms() {
    for msg in [
        r#"{"method":"slotSubscribe","params":[]}"#,
        r#"{"method":"rootSubscribe"}"#,
        r#"{"method":"blockSubscribe","params":["all"]}"#,
        r#"{"method":"accountUnsubscribe","params":[0]}"#,
        r#"{"method":"programUnsubscribe","params":[0]}"#,
        r#"{"method":"signatureUnsubscribe","params":[0]}"#,
        r#"{"method":"slotUnsubscribe","params":[0]}"#,
        r#"{"method":"rootUnsubscribe","params":[0]}"#,
        r#"{"method":"blockUnsubscribe","params":[0]}"#,
    ] {
        assert_eq!(guide_strategy_from_pubsub_msg(msg), GuideStrategy::Both, "msg: {}", msg);
    }
}

#[test]
fn test_strategy_for_invalid_json() {
    assert_eq!(guide_strategy_from_pubsub_msg("this is not json"), GuideStrategy::Chain);
    assert_eq!(guide_strategy_from_pubsub_msg(r#"{"no_method":true}"#), GuideStrategy::Chain);
}

// -----------------
// Strategy resolution
// -----------------
#[test]
fn test_resolve_fixed_strategies() {
    let resolver = GuideStrategyResolver::new(provider_with(vec![]));
    assert_eq!(resolver.resolve(&GuideStrategy::Chain), RequestEndpoint::Chain);
    assert_eq!(resolver.resolve(&GuideStrategy::Ephemeral), RequestEndpoint::Ephemeral);
    assert_eq!(resolver.resolve(&GuideStrategy::Both), RequestEndpoint::Both);
}

#[test]
fn test_resolve_signature_strategy_is_both() {
    let resolver = GuideStrategyResolver::new(provider_with(vec![]));
    let strategy = GuideStrategy::TryEphemeralForSignature("sig".to_string(), true);
    assert_eq!(resolver.resolve(&strategy), RequestEndpoint::Both);
}

#[test]
fn test_resolve_account_present_in_ephemeral() {
    let (pubkey, address) = unique_address();
    let resolver =
        GuideStrategyResolver::new(provider_with(vec![(pubkey, plain_account(false))]));
    let strategy = GuideStrategy::TryEphemeralForAccount(address, true);
    assert_eq!(resolver.resolve(&strategy), RequestEndpoint::Ephemeral);
}

#[test]
fn test_resolve_account_absent_subscription_is_both() {
    let (_, address) = unique_address();
    let resolver = GuideStrategyResolver::new(provider_with(vec![]));
    let strategy = GuideStrategy::TryEphemeralForAccount(address, true);
    assert_eq!(resolver.resolve(&strategy), RequestEndpoint::Both);
}

#[test]
fn test_resolve_account_absent_single_request_is_chain() {
    let (_, address) = unique_address();
    let resolver = GuideStrategyResolver::new(provider_with(vec![]));
    let strategy = GuideStrategy::TryEphemeralForAccount(address, false);
    assert_eq!(resolver.resolve(&strategy), RequestEndpoint::Chain);
}

#[test]
fn test_resolve_invalid_address_is_chain() {
    let resolver = GuideStrategyResolver::new(provider_with(vec![]));
    let strategy = GuideStrategy::TryEphemeralForAccount("not-a-valid-pubkey!!".to_string(), true);
    assert_eq!(resolver.resolve(&strategy), RequestEndpoint::Chain);
}

#[test]
fn test_resolve_program_not_executable_is_chain() {
    let (pubkey, address) = unique_address();
    let resolver =
        GuideStrategyResolver::new(provider_with(vec![(pubkey, plain_account(false))]));
    let strategy = GuideStrategy::TryEphemeralForProgram(address, true);
    assert_eq!(resolver.resolve(&strategy), RequestEndpoint::Chain);
}

#[test]
fn test_resolve_program_executable_is_ephemeral() {
    let (pubkey, address) = unique_address();
    let resolver = GuideStrategyResolver::new(provider_with(vec![(pubkey, plain_account(true))]));
    let strategy = GuideStrategy::TryEphemeralForProgram(address, true);
    assert_eq!(resolver.resolve(&strategy), RequestEndpoint::Ephemeral);
}

// -----------------
// End to end through the message text
// -----------------
#[test]
fn test_account_subscribe_for_existing_ephemeral_account() {
    let (pubkey, address) = unique_address();
    let resolver =
        GuideStrategyResolver::new(provider_with(vec![(pubkey, plain_account(false))]));
    let msg = format!(r#"{{"method":"accountSubscribe","params":["{}"]}}"#, address);
    let strategy = guide_strategy_from_pubsub_msg(&msg);
    assert_eq!(resolver.resolve(&strategy), RequestEndpoint::Ephemeral);
}

#[test]
fn test_account_subscribe_for_absent_ephemeral_account() {
    let (_, address) = unique_address();
    let resolver = GuideStrategyResolver::new(provider_with(vec![]));
    let msg = format!(r#"{{"method":"accountSubscribe","params":["{}"]}}"#, address);
    let strategy = guide_strategy_from_pubsub_msg(&msg);
    assert_eq!(resolver.resolve(&strategy), RequestEndpoint::Both);
}
